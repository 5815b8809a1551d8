//! The preset bank: two parallel collections of named curves (beat and
//! volume), a selection cursor `(mode, index)`, the two mutation events that
//! form its entire write surface, and the read queries that renderers pull
//! from.
//!
//! `Select` moves the cursor unconditionally; it never fails, so a cursor
//! that points past the end of its collection is possible. Queries that
//! would have to address such a cursor fail explicitly with
//! [`BankError::OutOfRange`] instead of substituting a default. `Set`
//! replaces one slot when the index is in bounds and otherwise does nothing,
//! which the return value makes observable.

use vstd::prelude::*;

use crate::curve::{Curve, Mode, Node, Preset, PresetView};
use crate::text::{make_test_name, test_name};

verus! {

/// An event relating to a preset; the only two ways to mutate a bank.
pub enum PresetEvent {
    /// Replace the preset in one slot of a collection.
    SetSlot {
        /// Whether we're setting a beat or a volume.
        mode: Mode,
        /// The index of the slot.
        index: usize,
        /// The new preset.
        preset: Preset,
    },
    /// Move the selection cursor to a given slot.
    Select {
        /// Whether we're selecting a beat or a volume.
        mode: Mode,
        /// The index of the slot.
        index: usize,
    },
}

/// What applying an event did to the bank.
#[derive(Clone, Copy, PartialEq, Eq, Structural, Debug)]
pub enum BankChange {
    /// The cursor moved to `(mode, index)`.
    Selected { mode: Mode, index: usize },
    /// The slot `(mode, index)` now holds the new preset.
    Replaced { mode: Mode, index: usize },
    /// A `Set` addressed a slot out of bounds and changed nothing.
    Ignored { mode: Mode, index: usize },
}

/// Failure of a read query.
#[derive(Clone, Copy, PartialEq, Eq, Structural, Debug)]
pub enum BankError {
    /// The addressed `(mode, index)` lies beyond the collection's length,
    /// either because the caller passed it or because the cursor went stale.
    OutOfRange,
}

/// The mathematical value of a [`PresetBank`].
#[verifier::ext_equal]
pub struct BankView {
    pub beat: Seq<PresetView>,
    pub vol: Seq<PresetView>,
    pub mode: Mode,
    pub index: int,
}

impl BankView {
    /// The collection that `mode` names.
    pub open spec fn collection(self, mode: Mode) -> Seq<PresetView> {
        match mode {
            Mode::Beat => self.beat,
            Mode::Vol => self.vol,
        }
    }

    /// Whether the cursor addresses an existing slot of its collection.
    pub open spec fn cursor_in_bounds(self) -> bool {
        0 <= self.index < self.collection(self.mode).len()
    }

    /// The state after `Select(mode, index)`: only the cursor moves.
    pub open spec fn select_event(self, mode: Mode, index: int) -> BankView {
        BankView { beat: self.beat, vol: self.vol, mode: mode, index: index }
    }

    /// The state after `Set(mode, index, p)`: the addressed slot holds `p`
    /// when the index is in bounds; otherwise nothing changes.
    pub open spec fn set_event(self, mode: Mode, index: int, p: PresetView) -> BankView {
        if 0 <= index < self.collection(mode).len() {
            match mode {
                Mode::Beat => BankView {
                    beat: self.beat.update(index, p),
                    vol: self.vol,
                    mode: self.mode,
                    index: self.index,
                },
                Mode::Vol => BankView {
                    beat: self.beat,
                    vol: self.vol.update(index, p),
                    mode: self.mode,
                    index: self.index,
                },
            }
        } else {
            self
        }
    }

    /// The curve under the cursor, or nothing when the cursor is out of
    /// bounds.
    pub open spec fn selected_curve(self) -> Option<Seq<Node>> {
        if self.cursor_in_bounds() {
            Some(self.collection(self.mode)[self.index].curve)
        } else {
            None
        }
    }

    /// The display label of a slot, or nothing when the index is out of
    /// bounds.
    pub open spec fn slot_name(self, mode: Mode, index: int) -> Option<Seq<char>> {
        if 0 <= index < self.collection(mode).len() {
            Some(self.collection(mode)[index].name)
        } else {
            None
        }
    }
}

/// The state container: both preset collections and the selection cursor.
/// Mutated only through [`PresetBank::select`], [`PresetBank::set_slot`] and
/// [`PresetBank::apply`]; read through the query methods.
pub struct PresetBank {
    /// The presets for the beats.
    beat_presets: Vec<Preset>,
    /// The presets for the volumes.
    vol_presets: Vec<Preset>,
    /// The mode of the selected preset.
    mode: Mode,
    /// The index of the selected preset.
    index: usize,
}

impl View for PresetBank {
    type V = BankView;

    closed spec fn view(&self) -> BankView {
        BankView {
            beat: self.beat_presets@.map_values(|p: Preset| p@),
            vol: self.vol_presets@.map_values(|p: Preset| p@),
            mode: self.mode,
            index: self.index as int,
        }
    }
}

impl PresetBank {
    /// Builds a bank over the given collections, with the cursor at its
    /// default position `(Beat, 0)`.
    pub fn new(beat_presets: Vec<Preset>, vol_presets: Vec<Preset>) -> (bank: PresetBank)
        ensures
            bank@.beat == beat_presets@.map_values(|p: Preset| p@),
            bank@.vol == vol_presets@.map_values(|p: Preset| p@),
            bank@.mode == Mode::Beat,
            bank@.index == 0,
    {
        PresetBank { beat_presets, vol_presets, mode: Mode::Beat, index: 0 }
    }

    /// The selection cursor as `(mode, index)`, for widgets that show it.
    pub fn cursor(&self) -> (c: (Mode, usize))
        ensures
            c.0 == self@.mode,
            c.1 == self@.index,
    {
        (self.mode, self.index)
    }

    /// Count of presets in the collection that `mode` names.
    pub fn collection_length(&self, mode: Mode) -> (n: usize)
        ensures
            n == self@.collection(mode).len(),
    {
        match mode {
            Mode::Beat => self.beat_presets.len(),
            Mode::Vol => self.vol_presets.len(),
        }
    }

    /// Moves the selection cursor to `(mode, index)`, unconditionally: no
    /// validation happens at selection time, and no slot data changes.
    /// Whether the new cursor addresses an existing slot is decided by the
    /// queries that later use it.
    pub fn select(&mut self, mode: Mode, index: usize)
        ensures
            final(self)@ == old(self)@.select_event(mode, index as int),
    {
        self.mode = mode;
        self.index = index;
    }

    /// Replaces the preset at `(mode, index)` when the index is in bounds
    /// and returns whether it did; an out-of-bounds index changes nothing.
    /// The cursor does not move, so when `(mode, index)` is the current
    /// cursor the next `selected_curve` sees the new data.
    pub fn set_slot(&mut self, mode: Mode, index: usize, preset: Preset) -> (applied: bool)
        ensures
            final(self)@ == old(self)@.set_event(mode, index as int, preset@),
            applied == (index < old(self)@.collection(mode).len()),
    {
        let ghost pv = preset@;
        match mode {
            Mode::Beat => {
                if index < self.beat_presets.len() {
                    self.beat_presets[index] = preset;
                    proof {
                        assert(self.beat_presets@.map_values(|p: Preset| p@) =~= old(
                            self,
                        )@.beat.update(index as int, pv));
                        assert(final(self)@ =~= old(self)@.set_event(mode, index as int, pv));
                    }
                    true
                } else {
                    false
                }
            },
            Mode::Vol => {
                if index < self.vol_presets.len() {
                    self.vol_presets[index] = preset;
                    proof {
                        assert(self.vol_presets@.map_values(|p: Preset| p@) =~= old(
                            self,
                        )@.vol.update(index as int, pv));
                        assert(final(self)@ =~= old(self)@.set_event(mode, index as int, pv));
                    }
                    true
                } else {
                    false
                }
            },
        }
    }

    /// Applies one protocol event and reports what it did, so that an
    /// observer can re-pull the queries it cares about.
    pub fn apply(&mut self, event: PresetEvent) -> (change: BankChange)
        ensures
            match event {
                PresetEvent::Select { mode, index } => {
                    &&& final(self)@ == old(self)@.select_event(mode, index as int)
                    &&& change == (BankChange::Selected { mode, index })
                },
                PresetEvent::SetSlot { mode, index, preset } => {
                    &&& final(self)@ == old(self)@.set_event(mode, index as int, preset@)
                    &&& change == if index < old(self)@.collection(mode).len() {
                        BankChange::Replaced { mode, index }
                    } else {
                        BankChange::Ignored { mode, index }
                    }
                },
            },
    {
        match event {
            PresetEvent::Select { mode, index } => {
                self.select(mode, index);
                BankChange::Selected { mode, index }
            },
            PresetEvent::SetSlot { mode, index, preset } => {
                if self.set_slot(mode, index, preset) {
                    BankChange::Replaced { mode, index }
                } else {
                    BankChange::Ignored { mode, index }
                }
            },
        }
    }

    /// A defensive copy of the curve under the cursor, or `OutOfRange` when
    /// the cursor (possibly gone stale since selection) addresses no
    /// existing slot.
    pub fn selected_curve(&self) -> (r: Result<Curve, BankError>)
        ensures
            match r {
                Ok(c) => self@.selected_curve() == Some(c@),
                Err(e) => self@.selected_curve() is None && e == BankError::OutOfRange,
            },
    {
        let presets = match self.mode {
            Mode::Beat => &self.beat_presets,
            Mode::Vol => &self.vol_presets,
        };
        if self.index < presets.len() {
            Ok(presets[self.index].curve.clone())
        } else {
            Err(BankError::OutOfRange)
        }
    }

    /// A copy of the display label at `(mode, index)`, or `OutOfRange` when
    /// the index addresses no existing slot.
    pub fn slot_name(&self, mode: Mode, index: usize) -> (r: Result<String, BankError>)
        ensures
            match r {
                Ok(s) => self@.slot_name(mode, index as int) == Some(s@),
                Err(e) => self@.slot_name(mode, index as int) is None && e
                    == BankError::OutOfRange,
            },
    {
        let presets = match mode {
            Mode::Beat => &self.beat_presets,
            Mode::Vol => &self.vol_presets,
        };
        if index < presets.len() {
            Ok(presets[index].name.clone())
        } else {
            Err(BankError::OutOfRange)
        }
    }
}

/// Selecting a valid slot and then reading the selected curve yields exactly
/// the curve stored at that slot, whatever the cursor was before: the cursor
/// move leaks into no slot and crosses no mode.
pub proof fn select_then_selected_curve(v: BankView, mode: Mode, index: int)
    requires
        0 <= index < v.collection(mode).len(),
    ensures
        v.select_event(mode, index).selected_curve() == Some(v.collection(mode)[index].curve),
{
}

/// Writing a valid slot, selecting it, and reading the selected curve yields
/// the curve that was written: write-then-read consistency.
pub proof fn set_then_select_then_selected_curve(v: BankView, mode: Mode, index: int, p: PresetView)
    requires
        0 <= index < v.collection(mode).len(),
    ensures
        v.set_event(mode, index, p).select_event(mode, index).selected_curve() == Some(p.curve),
{
}

/// A `Set` addressed to a slot out of bounds is a no-op: both collection
/// lengths and every existing slot keep their contents, and the cursor stays
/// put.
pub proof fn set_out_of_bounds_is_noop(v: BankView, mode: Mode, index: int, p: PresetView)
    requires
        !(0 <= index < v.collection(mode).len()),
    ensures
        v.set_event(mode, index, p) == v,
{
}

/// A `Set` never changes the length of either collection, in or out of
/// bounds.
pub proof fn set_preserves_lengths(v: BankView, mode: Mode, index: int, p: PresetView)
    ensures
        v.set_event(mode, index, p).beat.len() == v.beat.len(),
        v.set_event(mode, index, p).vol.len() == v.vol.len(),
{
}

/// The deterministic demo presets: slot `i` is named "Test i" and carries a
/// two-point curve from the origin to `(i/50, i/50)` of the display box, in
/// fixed-point coordinates `i * SCALE / 50 == 20 * i`.
pub open spec fn test_preset_view(i: nat) -> PresetView {
    PresetView {
        name: test_name(i),
        curve: seq![Node { x: 0, y: 0 }, Node { x: (20 * i) as i64, y: (20 * i) as i64 }],
    }
}

/// Builds the `n` deterministic demo presets for one collection.
pub fn test_presets(n: usize) -> (v: Vec<Preset>)
    requires
        20 * n <= i64::MAX,
    ensures
        v@.len() == n,
        forall|i: int| 0 <= i < n ==> #[trigger] v@[i]@ == test_preset_view(i as nat),
{
    let mut v: Vec<Preset> = Vec::new();
    let mut i: usize = 0;
    while i < n
        invariant
            i <= n,
            20 * n <= i64::MAX,
            v@.len() == i,
            forall|j: int| 0 <= j < i ==> #[trigger] v@[j]@ == test_preset_view(j as nat),
        decreases n - i,
    {
        let c: i64 = 20 * (i as i64);
        let mut nodes: Vec<Node> = Vec::new();
        nodes.push(Node { x: 0, y: 0 });
        nodes.push(Node { x: c, y: c });
        let preset = Preset { name: make_test_name(i), curve: Curve { nodes } };
        proof {
            assert(preset@.curve =~= test_preset_view(i as nat).curve);
            assert(preset@ == test_preset_view(i as nat));
        }
        v.push(preset);
        i = i + 1;
    }
    v
}

/// The demo session state a UI session starts from when the host supplies
/// no collections: twelve deterministic presets in each mode and the cursor
/// at its default `(Beat, 0)`.
pub fn demo_bank() -> (bank: PresetBank)
    ensures
        bank@.beat.len() == 12,
        bank@.vol.len() == 12,
        forall|i: int| 0 <= i < 12 ==> #[trigger] bank@.beat[i] == test_preset_view(i as nat),
        forall|i: int| 0 <= i < 12 ==> #[trigger] bank@.vol[i] == test_preset_view(i as nat),
        bank@.mode == Mode::Beat,
        bank@.index == 0,
{
    let beat = test_presets(12);
    let vol = test_presets(12);
    PresetBank::new(beat, vol)
}

} // verus!

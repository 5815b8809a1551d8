//! The list adapter: pure layout that turns one collection of a bank into
//! selectable rows. Slot indices are partitioned into rows of
//! [`SLOTS_PER_ROW`], the final row holding the remainder; each slot carries
//! the label of its preset and stands for a `Select(mode, index)` trigger.
//! The layout holds no state of its own and is recomputed from the
//! collection length.

use vstd::prelude::*;

use crate::bank::{BankError, PresetBank, PresetEvent};
use crate::curve::Mode;

verus! {

/// How many selectable slots a full row holds; a presentation constant.
pub const SLOTS_PER_ROW: usize = 3;

/// How many rows lay out `n` slots: `ceil(n / SLOTS_PER_ROW)`.
pub open spec fn row_count(n: int) -> int {
    (n + (SLOTS_PER_ROW - 1)) / (SLOTS_PER_ROW as int)
}

/// How many slots stand in row `r` of the layout of `n` slots: every row is
/// full but the last, which holds what remains.
pub open spec fn row_len(n: int, r: int) -> int {
    if SLOTS_PER_ROW * (r + 1) <= n {
        SLOTS_PER_ROW as int
    } else {
        n - SLOTS_PER_ROW * r
    }
}

/// One selectable row entry: the trigger data for its slot and the label to
/// show on it.
pub struct ListSlot {
    /// The collection this slot belongs to.
    pub mode: Mode,
    /// The slot's index in that collection.
    pub index: usize,
    /// The display label, bound to the slot's preset name.
    pub name: String,
}

impl ListSlot {
    /// The event a click on this slot emits.
    pub fn trigger(&self) -> (e: PresetEvent)
        ensures
            e == (PresetEvent::Select { mode: self.mode, index: self.index }),
    {
        PresetEvent::Select { mode: self.mode, index: self.index }
    }
}

/// The row entry for one slot of a collection: its label pulled from the
/// bank, or `OutOfRange` when the index addresses no existing slot.
pub fn slot_entry(bank: &PresetBank, mode: Mode, index: usize) -> (r: Result<ListSlot, BankError>)
    ensures
        match r {
            Ok(slot) => {
                &&& index < bank@.collection(mode).len()
                &&& slot.mode == mode
                &&& slot.index == index
                &&& bank@.slot_name(mode, index as int) == Some(slot.name@)
            },
            Err(e) => {
                &&& index >= bank@.collection(mode).len()
                &&& e == BankError::OutOfRange
            },
        },
{
    match bank.slot_name(mode, index) {
        Ok(name) => Ok(ListSlot { mode, index, name }),
        Err(e) => Err(e),
    }
}

/// Lays the collection that `mode` names out as selectable rows: slot `c` of
/// row `r` stands for index `SLOTS_PER_ROW * r + c`, labelled with that
/// slot's preset name. Every row is full but the last, which holds the
/// remaining slots.
pub fn list_rows(bank: &PresetBank, mode: Mode) -> (rows: Vec<Vec<ListSlot>>)
    ensures
        rows@.len() == row_count(bank@.collection(mode).len() as int),
        forall|r: int|
            0 <= r < rows@.len() ==> #[trigger] rows@[r]@.len() == row_len(
                bank@.collection(mode).len() as int,
                r,
            ),
        forall|r: int, c: int|
            0 <= r < rows@.len() && 0 <= c < rows@[r]@.len() ==> {
                &&& (#[trigger] rows@[r]@[c]).mode == mode
                &&& rows@[r]@[c].index == SLOTS_PER_ROW * r + c
                &&& bank@.slot_name(mode, SLOTS_PER_ROW * r + c) == Some(rows@[r]@[c].name@)
            },
{
    let ghost n = bank@.collection(mode).len() as int;
    let total = bank.collection_length(mode);
    let mut rows: Vec<Vec<ListSlot>> = Vec::new();
    let mut done: usize = 0;
    while done < total
        invariant
            n == bank@.collection(mode).len(),
            total == n,
            done <= total,
            done < total ==> done == SLOTS_PER_ROW * rows@.len(),
            done == total ==> rows@.len() == row_count(n),
            forall|r: int|
                0 <= r < rows@.len() ==> #[trigger] rows@[r]@.len() == row_len(n, r),
            forall|r: int, c: int|
                0 <= r < rows@.len() && 0 <= c < rows@[r]@.len() ==> {
                    &&& (#[trigger] rows@[r]@[c]).mode == mode
                    &&& rows@[r]@[c].index == SLOTS_PER_ROW * r + c
                    &&& bank@.slot_name(mode, SLOTS_PER_ROW * r + c) == Some(rows@[r]@[c].name@)
                },
        decreases total - done,
    {
        let ghost r = rows@.len() as int;
        let mut row: Vec<ListSlot> = Vec::new();
        let mut c: usize = 0;
        while c < SLOTS_PER_ROW && done + c < total
            invariant
                n == bank@.collection(mode).len(),
                total == n,
                c <= SLOTS_PER_ROW,
                done + c <= total,
                row@.len() == c,
                forall|k: int|
                    0 <= k < c ==> {
                        &&& (#[trigger] row@[k]).mode == mode
                        &&& row@[k].index == done + k
                        &&& bank@.slot_name(mode, done + k) == Some(row@[k].name@)
                    },
            decreases SLOTS_PER_ROW - c,
        {
            match slot_entry(bank, mode, done + c) {
                Ok(slot) => row.push(slot),
                Err(_) => {
                    proof {
                        assert(false);
                    }
                },
            }
            c = c + 1;
        }
        proof {
            assert(row@.len() == row_len(n, r));
        }
        rows.push(row);
        done = done + c;
        proof {
            if done == total {
                assert(rows@.len() == row_count(n));
            }
        }
    }
    rows
}

/// Partition shape of the layout: `n` slots make `ceil(n / SLOTS_PER_ROW)`
/// rows; the last row holds `n % SLOTS_PER_ROW` slots when that remainder is
/// not zero, else exactly `SLOTS_PER_ROW`; every earlier row is full.
pub proof fn row_partition(n: int)
    requires
        n > 0,
    ensures
        SLOTS_PER_ROW * row_count(n) >= n,
        SLOTS_PER_ROW * (row_count(n) - 1) < n,
        row_len(n, row_count(n) - 1) == if n % (SLOTS_PER_ROW as int) != 0 {
            n % (SLOTS_PER_ROW as int)
        } else {
            SLOTS_PER_ROW as int
        },
        forall|r: int| 0 <= r < row_count(n) - 1 ==> row_len(n, r) == SLOTS_PER_ROW,
{
}

/// A collection of length zero lays out as no rows at all.
pub proof fn row_partition_empty()
    ensures
        row_count(0) == 0,
{
}

} // verus!

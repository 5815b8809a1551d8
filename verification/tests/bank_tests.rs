use functor::bank::{demo_bank, test_presets, BankChange, BankError, PresetBank, PresetEvent};
use functor::curve::{Curve, Mode, Node, Preset};

fn named(name: &str, nodes: Vec<Node>) -> Preset {
    Preset { name: String::from(name), curve: Curve { nodes } }
}

fn small_bank() -> PresetBank {
    let beat = vec![
        named("kick", vec![Node { x: 0, y: 0 }, Node { x: 500, y: 900 }]),
        named("snare", vec![Node { x: 100, y: 100 }]),
    ];
    let vol = vec![
        named("swell", vec![Node { x: 0, y: 1000 }]),
        named("gate", vec![Node { x: 250, y: 250 }, Node { x: 750, y: 750 }]),
        named("duck", vec![]),
    ];
    PresetBank::new(beat, vol)
}

#[test]
fn default_cursor_is_beat_zero() {
    let bank = small_bank();
    let (mode, index) = bank.cursor();
    assert!(matches!(mode, Mode::Beat));
    assert_eq!(index, 0);
    let c = bank.selected_curve().unwrap();
    assert_eq!(c.nodes, vec![Node { x: 0, y: 0 }, Node { x: 500, y: 900 }]);
}

#[test]
fn select_then_read_returns_stored_curve() {
    let mut bank = small_bank();
    bank.select(Mode::Vol, 1);
    let c = bank.selected_curve().unwrap();
    assert_eq!(c.nodes, vec![Node { x: 250, y: 250 }, Node { x: 750, y: 750 }]);
    // No cross-mode leakage: same index in the other mode is different data.
    bank.select(Mode::Beat, 1);
    let c = bank.selected_curve().unwrap();
    assert_eq!(c.nodes, vec![Node { x: 100, y: 100 }]);
}

#[test]
fn write_then_read_is_consistent() {
    let mut bank = small_bank();
    let new_preset = named("replacement", vec![Node { x: 10, y: 20 }]);
    let applied = bank.set_slot(Mode::Beat, 1, new_preset);
    assert!(applied);
    bank.select(Mode::Beat, 1);
    let c = bank.selected_curve().unwrap();
    assert_eq!(c.nodes, vec![Node { x: 10, y: 20 }]);
    assert_eq!(bank.slot_name(Mode::Beat, 1).unwrap(), "replacement");
}

#[test]
fn set_out_of_bounds_changes_nothing() {
    let mut bank = small_bank();
    let applied = bank.set_slot(Mode::Vol, 3, named("ghostly", vec![Node { x: 1, y: 2 }]));
    assert!(!applied);
    assert_eq!(bank.collection_length(Mode::Vol), 3);
    assert_eq!(bank.collection_length(Mode::Beat), 2);
    assert_eq!(bank.slot_name(Mode::Vol, 0).unwrap(), "swell");
    assert_eq!(bank.slot_name(Mode::Vol, 1).unwrap(), "gate");
    assert_eq!(bank.slot_name(Mode::Vol, 2).unwrap(), "duck");
    bank.select(Mode::Vol, 2);
    assert_eq!(bank.selected_curve().unwrap().nodes, vec![]);
}

#[test]
fn out_of_range_queries_fail_explicitly() {
    let mut bank = small_bank();
    // Select never rejects, even out of range; the query reports the error.
    bank.select(Mode::Beat, 17);
    assert_eq!(bank.selected_curve().map(|_| ()), Err(BankError::OutOfRange));
    assert_eq!(
        bank.slot_name(Mode::Beat, 2).map(|_| ()),
        Err(BankError::OutOfRange)
    );
}

#[test]
fn apply_reports_what_happened() {
    let mut bank = small_bank();
    let change = bank.apply(PresetEvent::Select { mode: Mode::Vol, index: 2 });
    assert_eq!(change, BankChange::Selected { mode: Mode::Vol, index: 2 });
    let (mode, index) = bank.cursor();
    assert!(matches!(mode, Mode::Vol));
    assert_eq!(index, 2);

    let change = bank.apply(PresetEvent::SetSlot {
        mode: Mode::Vol,
        index: 2,
        preset: named("filled", vec![Node { x: 3, y: 4 }]),
    });
    assert_eq!(change, BankChange::Replaced { mode: Mode::Vol, index: 2 });
    assert_eq!(bank.selected_curve().unwrap().nodes, vec![Node { x: 3, y: 4 }]);

    let change = bank.apply(PresetEvent::SetSlot {
        mode: Mode::Beat,
        index: 9,
        preset: named("nowhere", vec![]),
    });
    assert_eq!(change, BankChange::Ignored { mode: Mode::Beat, index: 9 });
    assert_eq!(bank.collection_length(Mode::Beat), 2);
}

#[test]
fn demo_bank_round_trip() {
    let bank = demo_bank();
    assert_eq!(bank.collection_length(Mode::Beat), 12);
    assert_eq!(bank.collection_length(Mode::Vol), 12);
    assert_eq!(bank.slot_name(Mode::Beat, 3).unwrap(), "Test 3");
    assert_eq!(bank.slot_name(Mode::Vol, 11).unwrap(), "Test 11");
    // Slot i carries the two-point curve to (20 * i, 20 * i).
    let c = bank.selected_curve().unwrap();
    assert_eq!(c.nodes, vec![Node { x: 0, y: 0 }, Node { x: 0, y: 0 }]);
    let mut bank = bank;
    bank.select(Mode::Beat, 7);
    let c = bank.selected_curve().unwrap();
    assert_eq!(c.nodes, vec![Node { x: 0, y: 0 }, Node { x: 140, y: 140 }]);
}

#[test]
fn generator_makes_requested_count() {
    let presets = test_presets(5);
    assert_eq!(presets.len(), 5);
    assert_eq!(presets[0].name, "Test 0");
    assert_eq!(presets[4].name, "Test 4");
    assert_eq!(presets[4].curve.nodes, vec![Node { x: 0, y: 0 }, Node { x: 80, y: 80 }]);
}

#[test]
fn concrete_select_and_set_scenario() {
    // Default cursor (Beat, 0); Select(Vol, 5) reads vol_presets[5];
    // Set(Vol, 5, new) makes the selection read the new curve.
    let mut bank = demo_bank();
    let (mode, index) = bank.cursor();
    assert!(matches!(mode, Mode::Beat));
    assert_eq!(index, 0);
    bank.select(Mode::Vol, 5);
    // The volume collection's slot 5 holds the demo curve to (100, 100).
    assert_eq!(
        bank.selected_curve().unwrap().nodes,
        vec![Node { x: 0, y: 0 }, Node { x: 100, y: 100 }]
    );
    let new_preset = named("fresh", vec![Node { x: 42, y: 958 }]);
    let applied = bank.set_slot(Mode::Vol, 5, new_preset);
    assert!(applied);
    assert_eq!(bank.selected_curve().unwrap().nodes, vec![Node { x: 42, y: 958 }]);
}

#[test]
fn stale_selection_fails_at_query_time() {
    // A cursor valid at selection time but beyond a shorter collection is
    // reported by the query, not by select.
    let mut bank = small_bank();
    bank.select(Mode::Vol, 2);
    assert!(bank.selected_curve().is_ok());
    bank.select(Mode::Beat, 2);
    assert_eq!(bank.selected_curve().map(|_| ()), Err(BankError::OutOfRange));
}

use functor::bank::{demo_bank, test_presets, BankError, PresetBank, PresetEvent};
use functor::curve::{Curve, Mode, Node, Preset};
use functor::list::{list_rows, slot_entry, SLOTS_PER_ROW};

fn bank_with_n_beats(n: usize) -> PresetBank {
    PresetBank::new(test_presets(n), Vec::new())
}

#[test]
fn slots_per_row_is_three() {
    assert_eq!(SLOTS_PER_ROW, 3);
}

#[test]
fn twelve_slots_make_four_full_rows() {
    let bank = demo_bank();
    let rows = list_rows(&bank, Mode::Beat);
    assert_eq!(rows.len(), 4);
    for (r, row) in rows.iter().enumerate() {
        assert_eq!(row.len(), 3);
        for (c, slot) in row.iter().enumerate() {
            assert!(matches!(slot.mode, Mode::Beat));
            assert_eq!(slot.index, 3 * r + c);
        }
    }
    assert_eq!(rows[1][0].name, "Test 3");
    assert_eq!(rows[3][2].name, "Test 11");
}

#[test]
fn remainder_goes_to_a_short_last_row() {
    let bank = bank_with_n_beats(7);
    let rows = list_rows(&bank, Mode::Beat);
    assert_eq!(rows.len(), 3);
    assert_eq!(rows[0].len(), 3);
    assert_eq!(rows[1].len(), 3);
    assert_eq!(rows[2].len(), 1);
    assert_eq!(rows[2][0].index, 6);
    assert_eq!(rows[2][0].name, "Test 6");
}

#[test]
fn exact_multiple_ends_with_a_full_row() {
    let bank = bank_with_n_beats(3);
    let rows = list_rows(&bank, Mode::Beat);
    assert_eq!(rows.len(), 1);
    assert_eq!(rows[0].len(), 3);
}

#[test]
fn single_slot_makes_one_short_row() {
    let bank = bank_with_n_beats(1);
    let rows = list_rows(&bank, Mode::Beat);
    assert_eq!(rows.len(), 1);
    assert_eq!(rows[0].len(), 1);
}

#[test]
fn empty_collection_makes_no_rows() {
    let bank = bank_with_n_beats(0);
    assert!(list_rows(&bank, Mode::Beat).is_empty());
    assert!(list_rows(&bank, Mode::Vol).is_empty());
}

#[test]
fn each_slot_triggers_its_own_selection() {
    let bank = PresetBank::new(
        Vec::new(),
        vec![Preset { name: String::from("only"), curve: Curve { nodes: vec![Node { x: 5, y: 6 }] } }],
    );
    let slot = slot_entry(&bank, Mode::Vol, 0).unwrap();
    assert_eq!(slot.name, "only");
    match slot.trigger() {
        PresetEvent::Select { mode, index } => {
            assert!(matches!(mode, Mode::Vol));
            assert_eq!(index, 0);
        }
        _ => panic!("a slot click must select, not set"),
    }
    // Driving the bank with the trigger makes the slot's curve current.
    let mut bank = bank;
    bank.select(Mode::Beat, 9);
    let slot = slot_entry(&bank, Mode::Vol, 0).unwrap();
    bank.apply(slot.trigger());
    assert_eq!(bank.selected_curve().unwrap().nodes, vec![Node { x: 5, y: 6 }]);
}

#[test]
fn entry_beyond_the_collection_is_rejected() {
    let bank = bank_with_n_beats(2);
    assert_eq!(
        slot_entry(&bank, Mode::Beat, 2).map(|_| ()),
        Err(BankError::OutOfRange)
    );
    assert_eq!(
        slot_entry(&bank, Mode::Vol, 0).map(|_| ()),
        Err(BankError::OutOfRange)
    );
}

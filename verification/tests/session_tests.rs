use cursor_override::cursor::{Cursor, CursorKind, SystemSlot};
use cursor_override::recognizer::{KeySequenceRecognizer, MatchResult};

#[test]
fn unlock_sequence_triggers_exactly_one_revert() {
    // The override is absent; install it over the normal pointer slot.
    let mut slot = SystemSlot::new(CursorKind::Normal, 10, 100);
    let replacement = Cursor::from_file(7, 0).expect("load");
    let (replaced, _install) = replacement.replace_system(&mut slot, 55);
    assert_eq!(slot.current_image(), 7);

    // Feed the full unlock sequence; revert on each Complete report, the way
    // the controller does.
    let unlock: Vec<u32> = vec![9, 20, 18, 19, 0, 15, 17, 0, 13, 10, 1, 17, 14];
    let mut recognizer = KeySequenceRecognizer::new(unlock.clone());
    let mut reverts: usize = 0;
    for symbol in unlock {
        if recognizer.consume(symbol) == MatchResult::Complete {
            replaced.revert(&mut slot);
            reverts += 1;
        }
    }

    // Exactly one revert ran and no override state remains in the slot: it
    // shows the image it held before the override was installed.
    assert_eq!(reverts, 1);
    assert_eq!(recognizer.position(), 0);
    assert_eq!(slot.current_image(), 100);
    assert_eq!(slot.current_handle(), 55);
}

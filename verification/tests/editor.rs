use palm::hexedit::{
    clean_paste, is_hex_digit, splice, view_index_to_buffer_index, CursorRange, EditorKey,
    EventHandleResult, HexEditor, InputEvent, PartialNibble,
};
use palm::util::hex_encode_formatted;

fn at(index: usize) -> Option<CursorRange> {
    Some(CursorRange { primary: index, secondary: index })
}

#[test]
fn hex_text_of_bytes() {
    assert_eq!(hex_encode_formatted(&[0xDE, 0xAD, 0xBE, 0xEF]), "DE AD BE EF");
    assert_eq!(hex_encode_formatted(&[]), "");
    assert_eq!(hex_encode_formatted(&[0x00]), "00");
    assert_eq!(hex_encode_formatted(&[0x0a, 0xff, 0x10]), "0A FF 10");
    let all: Vec<u8> = (0..=255).collect();
    let text = hex_encode_formatted(&all);
    assert_eq!(text.len(), 3 * 256 - 1);
    assert!(text.starts_with("00 01 02"));
    assert!(text.ends_with("FD FE FF"));
}

#[test]
fn view_places_map_to_buffer_places() {
    let expected = [0, 1, 1, 1, 2, 2, 2, 3, 3, 3];
    for (view, buffer) in expected.iter().enumerate() {
        assert_eq!(view_index_to_buffer_index(view), *buffer);
    }
    // The largest place is a multiple of three, so nothing is rounded up.
    assert_eq!(view_index_to_buffer_index(usize::MAX), usize::MAX / 3);
    assert_eq!(view_index_to_buffer_index(usize::MAX - 1), usize::MAX / 3);
}

#[test]
fn hex_digits_are_told_from_other_bytes() {
    for byte in b"0123456789abcdefABCDEF" {
        assert!(is_hex_digit(*byte));
    }
    for byte in b" gGxX/:@`\n" {
        assert!(!is_hex_digit(*byte));
    }
    assert!(!is_hex_digit(0xC3));
}

#[test]
fn paste_keeps_the_hex_digits_in_pairs() {
    assert_eq!(clean_paste("de ad be ef"), vec![0xDE, 0xAD, 0xBE, 0xEF]);
    assert_eq!(clean_paste("0x1F, 0xa0"), vec![0x01, 0xF0, 0xA0]);
    assert_eq!(clean_paste("abc"), vec![0xAB]);
    assert_eq!(clean_paste("zz é ü"), Vec::<u8>::new());
    assert_eq!(clean_paste(""), Vec::<u8>::new());
}

#[test]
fn splice_replaces_a_range() {
    let mut buffer = vec![1, 2, 3, 4, 5];
    splice(&mut buffer, 1, 3, vec![9, 9, 9]);
    assert_eq!(buffer, vec![1, 9, 9, 9, 4, 5]);
    splice(&mut buffer, 0, 0, vec![7]);
    assert_eq!(buffer, vec![7, 1, 9, 9, 9, 4, 5]);
    splice(&mut buffer, 5, 7, Vec::new());
    assert_eq!(buffer, vec![7, 1, 9, 9, 9]);
}

#[test]
fn cursor_snaps_behind_its_byte() {
    for (index, snapped) in [(0, 0), (1, 2), (2, 2), (3, 5), (4, 5), (5, 5), (6, 8)] {
        let mut cursor = CursorRange { primary: index, secondary: index };
        cursor.snap();
        assert_eq!(cursor, CursorRange { primary: snapped, secondary: snapped });
    }
}

#[test]
fn cursor_moves_byte_by_byte() {
    let mut cursor = CursorRange { primary: 5, secondary: 5 };
    cursor.move_left(false);
    assert_eq!(cursor, CursorRange { primary: 2, secondary: 2 });
    cursor.move_left(true);
    assert_eq!(cursor, CursorRange { primary: 0, secondary: 2 });
    cursor.move_left(false);
    assert_eq!(cursor, CursorRange { primary: 0, secondary: 0 });
    cursor.move_right(false, 11);
    assert_eq!(cursor, CursorRange { primary: 2, secondary: 2 });
    cursor.move_right(true, 11);
    assert_eq!(cursor, CursorRange { primary: 5, secondary: 2 });
    cursor.move_right(false, 11);
    cursor.move_right(false, 11);
    assert_eq!(cursor, CursorRange { primary: 11, secondary: 11 });
    cursor.move_right(false, 11);
    assert_eq!(cursor, CursorRange { primary: 11, secondary: 11 });
}

#[test]
fn events_map_to_results() {
    let mut buffer = Vec::new();
    let editor = HexEditor::new(&mut buffer);
    let handle_event = |event: &InputEvent| editor.handle_event(event);
    let key = |key, pressed, shift| InputEvent::Key { key, pressed, shift };
    assert_eq!(
        handle_event(&key(EditorKey::ArrowLeft, true, true)),
        (EventHandleResult::CursorLeft(true), true)
    );
    assert_eq!(
        handle_event(&key(EditorKey::ArrowRight, true, false)),
        (EventHandleResult::CursorRight(false), true)
    );
    assert_eq!(
        handle_event(&key(EditorKey::Backspace, true, false)),
        (EventHandleResult::Delete, true)
    );
    assert_eq!(
        handle_event(&key(EditorKey::Backspace, false, false)),
        (EventHandleResult::NoAction, false)
    );
    assert_eq!(
        handle_event(&key(EditorKey::Other, true, false)),
        (EventHandleResult::NoAction, false)
    );
    assert_eq!(handle_event(&InputEvent::Cut), (EventHandleResult::Cut, true));
    assert_eq!(
        handle_event(&InputEvent::Text("a".to_string())),
        (EventHandleResult::Text("a".to_string()), true)
    );
    assert_eq!(
        handle_event(&InputEvent::Paste("ff".to_string())),
        (EventHandleResult::Paste("ff".to_string()), true)
    );
    assert_eq!(handle_event(&InputEvent::Other), (EventHandleResult::NoAction, false));
}

#[test]
fn editor_shows_its_buffer() {
    let mut buffer = vec![0xDE, 0xAD];
    let mut editor = HexEditor::new(&mut buffer);
    assert_eq!(editor.view(), "DE AD");
    editor.view_mut().push_str("!!");
    assert_eq!(editor.view(), "DE AD!!");
    editor.sync_view();
    assert_eq!(editor.view(), "DE AD");
}

#[test]
fn typing_two_digits_inserts_a_byte() {
    let mut buffer = vec![0x11, 0x22];
    let mut nibble = PartialNibble::default();
    let mut cursor = at(2);
    {
        let mut editor = HexEditor::new(&mut buffer);
        let first = EventHandleResult::Text("a".to_string());
        assert!(editor.accepts(&first, true, &nibble, &cursor));
        assert!(editor.process_event_result(first, true, &mut nibble, &mut cursor).is_none());
        assert_eq!(nibble.0, Some('a'));
        assert_eq!(cursor, at(2));
        let second = EventHandleResult::Text("B".to_string());
        assert!(editor.accepts(&second, true, &nibble, &cursor));
        editor.process_event_result(second, true, &mut nibble, &mut cursor);
        assert_eq!(nibble.0, None);
        assert_eq!(cursor, at(4));
        editor.sync_view();
        assert_eq!(editor.view(), "11 AB 22");
    }
    assert_eq!(buffer, vec![0x11, 0xAB, 0x22]);
}

#[test]
fn typing_something_else_keeps_the_first_digit() {
    let mut buffer = vec![0x11];
    let mut nibble = PartialNibble(Some('a'));
    let mut cursor = at(2);
    {
        let mut editor = HexEditor::new(&mut buffer);
        editor.process_event_result(
            EventHandleResult::Text("x".to_string()),
            true,
            &mut nibble,
            &mut cursor,
        );
        assert!(!editor.accepts(
            &EventHandleResult::Text(String::new()),
            true,
            &PartialNibble(None),
            &cursor
        ));
    }
    assert_eq!(nibble.0, Some('a'));
    assert_eq!(cursor, at(2));
    assert_eq!(buffer, vec![0x11]);
}

#[test]
fn delete_takes_the_byte_before_the_cursor_or_the_selection() {
    let mut buffer = vec![1, 2, 3, 4];
    let mut nibble = PartialNibble::default();
    {
        let mut editor = HexEditor::new(&mut buffer);
        let mut cursor = at(5);
        editor.process_event_result(EventHandleResult::Delete, true, &mut nibble, &mut cursor);
        assert_eq!(cursor, at(5));
        let mut nothing = at(0);
        editor.process_event_result(EventHandleResult::Delete, true, &mut nibble, &mut nothing);
    }
    assert_eq!(buffer, vec![1, 3, 4]);
    {
        let mut editor = HexEditor::new(&mut buffer);
        let mut selection = Some(CursorRange { primary: 8, secondary: 2 });
        editor.process_event_result(EventHandleResult::Delete, true, &mut nibble, &mut selection);
    }
    assert_eq!(buffer, vec![1]);
}

#[test]
fn paste_replaces_the_selection_and_moves_behind_it() {
    let mut buffer = vec![1, 2, 3];
    let mut nibble = PartialNibble::default();
    let mut cursor = Some(CursorRange { primary: 2, secondary: 5 });
    {
        let mut editor = HexEditor::new(&mut buffer);
        let paste = EventHandleResult::Paste("DE ad-BE".to_string());
        assert!(editor.accepts(&paste, true, &nibble, &cursor));
        assert!(editor.process_event_result(paste, true, &mut nibble, &mut cursor).is_none());
    }
    assert_eq!(buffer, vec![1, 0xDE, 0xAD, 0xBE, 3]);
    assert_eq!(cursor, at(8));
}

#[test]
fn cut_copies_the_selected_text_trimmed() {
    let mut buffer = vec![0xDE, 0xAD, 0xBE, 0xEF];
    let mut nibble = PartialNibble::default();
    let mut cursor = Some(CursorRange { primary: 8, secondary: 2 });
    let clipboard;
    {
        let mut editor = HexEditor::new(&mut buffer);
        assert!(editor.accepts(&EventHandleResult::Cut, true, &nibble, &cursor));
        clipboard =
            editor.process_event_result(EventHandleResult::Cut, true, &mut nibble, &mut cursor);
    }
    assert_eq!(clipboard.as_deref(), Some("AD BE"));
    assert_eq!(buffer, vec![0xDE, 0xEF]);
    assert_eq!(cursor, at(2));
}

#[test]
fn nothing_happens_without_focus_or_cursor() {
    let mut buffer = vec![1, 2, 3];
    let mut nibble = PartialNibble::default();
    {
        let mut editor = HexEditor::new(&mut buffer);
        let mut cursor = at(5);
        editor.process_event_result(EventHandleResult::Delete, false, &mut nibble, &mut cursor);
        assert_eq!(cursor, at(5));
        let mut none = None;
        editor.process_event_result(
            EventHandleResult::Paste("ff".to_string()),
            true,
            &mut nibble,
            &mut none,
        );
        assert_eq!(none, None);
        let mut still = at(5);
        editor.process_event_result(EventHandleResult::NoAction, true, &mut nibble, &mut still);
        editor.process_event_result(
            EventHandleResult::CursorLeft(false),
            true,
            &mut nibble,
            &mut still,
        );
        assert_eq!(still, at(5));
    }
    assert_eq!(buffer, vec![1, 2, 3]);
}

#[test]
fn events_out_of_range_are_not_accepted() {
    let mut buffer = vec![1];
    let nibble = PartialNibble::default();
    let editor = HexEditor::new(&mut buffer);
    let beyond = at(5);
    assert!(!editor.accepts(&EventHandleResult::Delete, true, &nibble, &beyond));
    assert!(!editor.accepts(&EventHandleResult::Cut, true, &nibble, &beyond));
    assert!(!editor.accepts(&EventHandleResult::Paste("ff".to_string()), true, &nibble, &beyond));
    assert!(editor.accepts(&EventHandleResult::Delete, false, &nibble, &beyond));
    assert!(editor.accepts(&EventHandleResult::Delete, true, &nibble, &None));
    assert!(editor.accepts(&EventHandleResult::NoAction, true, &nibble, &beyond));
}

#[test]
fn a_frame_moves_then_edits_then_shows() {
    let mut buffer = vec![0x11, 0x22, 0x33];
    let mut nibble = PartialNibble::default();
    let mut cursor = at(1);
    let clipboard;
    {
        let mut editor = HexEditor::new(&mut buffer);
        let results = vec![
            EventHandleResult::CursorRight(false),
            EventHandleResult::Text("f".to_string()),
            EventHandleResult::Text("0".to_string()),
            EventHandleResult::NoAction,
        ];
        clipboard = editor.apply(results, true, &mut nibble, &mut cursor);
        assert_eq!(editor.view(), "11 22 F0 33");
    }
    assert!(clipboard.is_empty());
    assert_eq!(buffer, vec![0x11, 0x22, 0xF0, 0x33]);
    assert_eq!(cursor, at(7));
    assert_eq!(nibble.0, None);
}

#[test]
fn a_frame_passes_over_what_it_cannot_take() {
    let mut buffer = vec![0x11];
    let mut nibble = PartialNibble::default();
    let mut cursor = at(0);
    let clipboard;
    {
        let mut editor = HexEditor::new(&mut buffer);
        // On a view of two places the cursor stops behind the first byte.
        let results = vec![
            EventHandleResult::CursorRight(false),
            EventHandleResult::CursorRight(false),
            EventHandleResult::Cut,
            EventHandleResult::Delete,
        ];
        clipboard = editor.apply(results, true, &mut nibble, &mut cursor);
        assert_eq!(editor.view(), "");
    }
    assert_eq!(clipboard, vec![String::new()]);
    assert!(buffer.is_empty());
    assert_eq!(cursor, at(2));
}

#[test]
fn shown_text_pastes_back_to_its_bytes() {
    for data in [vec![], vec![0x00], vec![0xDE, 0xAD, 0xBE, 0xEF], (0..=255).collect::<Vec<u8>>()] {
        assert_eq!(clean_paste(&hex_encode_formatted(&data)), data);
    }
}

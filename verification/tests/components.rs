use vimp::components::{
    calc_coords, is_key, key_action, key_to_char, parse_command, type_key, wants_text,
    CommandEffect, KeyAction, KeyOutcome, MarkChange, Namer, SelectState, SelectableOverlayData,
    SelectionEdit, SelectionTrack,
};
use vimp::graphics::{Circle, Form, Line, Rect, Text};
use vimp::parser::coords::{Coords, Direction, FinishedRelCoord, RelCoordPair};
use vimp::parser::{Command, CommandType, CreateComFSM, FSMResult, Modifiers};

fn finished(keys: &str, cursor: (u32, u32)) -> Command {
    match CreateComFSM::from(keys.to_string(), cursor) {
        FSMResult::OkCommand(com) => com,
        other => panic!("no command from {:?}: {:?}", keys, other),
    }
}

#[test]
fn namer_counts_through_the_alphabet() {
    let mut namer = Namer::new();
    let names: Vec<String> = (0..30).map(|_| namer.next_name()).collect();
    assert_eq!(names[0], "a");
    assert_eq!(names[1], "b");
    assert_eq!(names[25], "z");
    assert_eq!(names[26], "aa");
    assert_eq!(names[27], "ba");
    assert_eq!(names[28], "ca");
    assert_eq!(names[29], "da");
}

#[test]
fn namer_carries_into_later_letters() {
    let mut namer = Namer::new();
    let mut last = String::new();
    // 26 one-letter names, then 26 * 26 two-letter names.
    for _ in 0..(26 + 26 * 26) {
        last = namer.next_name();
    }
    assert_eq!(last, "zz");
    assert_eq!(namer.next_name(), "aaa");
    assert_eq!(namer.next_name(), "baa");
}

#[test]
fn namer_second_letter_steps_after_a_full_round() {
    let mut namer = Namer::new();
    for _ in 0..(26 + 26) {
        namer.inc();
    }
    assert_eq!(namer.next_name(), "ab");
}

#[test]
fn namer_clear_starts_over() {
    let mut namer = Namer::new();
    for _ in 0..100 {
        namer.inc();
    }
    namer.clear();
    assert_eq!(namer.next_name(), "a");
    assert_eq!(namer.clone().next_name(), "b");
}

#[test]
fn index_reads_letters_least_significant_first() {
    assert_eq!(Namer::get_index(""), 0);
    assert_eq!(Namer::get_index("a"), 0);
    assert_eq!(Namer::get_index("b"), 1);
    assert_eq!(Namer::get_index("z"), 25);
    assert_eq!(Namer::get_index("ab"), 26);
    assert_eq!(Namer::get_index("bb"), 27);
    assert_eq!(Namer::get_index("zz"), 25 + 25 * 26);
    assert_eq!(Namer::get_index("cba"), 2 + 26);
    assert_eq!(Namer::get_index("aaaaaaaaaaaaaaaaaaaaaaaaaaaaaaaa"), 0);
    // Letters behind `z` count on.
    assert_eq!(Namer::get_index("{"), 26);
}

#[test]
fn checked_index_refuses_what_has_no_value() {
    assert_eq!(Namer::checked_index("ba"), Some(1));
    assert_eq!(Namer::checked_index("A"), None);
    assert_eq!(Namer::checked_index("a1"), None);
    assert_eq!(Namer::checked_index("a,b"), None);
    assert_eq!(Namer::checked_index("zzzzzzzzzzzzzzzzzzzzzzzzzzzzzzzz"), None);
}

#[test]
fn selected_indices_reads_a_list_of_names() {
    assert_eq!(Namer::selected_indices(""), Some(vec![]));
    assert_eq!(Namer::selected_indices("a"), Some(vec![0]));
    assert_eq!(Namer::selected_indices("a,b,c"), Some(vec![0, 1, 2]));
    assert_eq!(Namer::selected_indices("c,a"), Some(vec![2, 0]));
    assert_eq!(Namer::selected_indices("ab,z"), Some(vec![26, 25]));
    assert_eq!(Namer::selected_indices(",,b,,c,"), Some(vec![1, 2]));
    assert_eq!(Namer::selected_indices(","), Some(vec![]));
}

#[test]
fn selected_indices_refuses_a_bad_name() {
    assert_eq!(Namer::selected_indices("a,B,c"), None);
    assert_eq!(Namer::selected_indices("a,b,7"), None);
}

#[test]
fn overlay_data_keeps_its_box() {
    let mut handle = SelectableOverlayData::new(1, 2, 3, 4);
    assert_eq!(handle.top(), 1);
    assert_eq!(handle.left(), 2);
    assert_eq!(handle.end_x(), 3);
    assert_eq!(handle.end_y(), 4);
    assert!(!handle.selected);
    handle.set_selected(true);
    assert!(handle.selected);
    assert_eq!((handle.top(), handle.left(), handle.end_x(), handle.end_y()), (1, 2, 3, 4));
    handle.set_selected(false);
    assert_eq!(handle, SelectableOverlayData::new(1, 2, 3, 4));
}

#[test]
fn label_sits_in_the_middle_of_the_box() {
    assert_eq!(SelectableOverlayData::new(10, 20, 60, 30).label_anchor(), (20, 40));
    assert_eq!(SelectableOverlayData::new(10, 20, 61, 31).label_anchor(), (20, 40));
    // A side that ends before it starts has no length.
    assert_eq!(SelectableOverlayData::new(50, 60, 10, 20).label_anchor(), (50, 60));
    assert_eq!(
        SelectableOverlayData::new(0, 0, u32::MAX, u32::MAX).label_anchor(),
        (u32::MAX / 2, u32::MAX / 2)
    );
}

#[test]
fn calc_coords_starts_at_the_reference_point() {
    assert_eq!(calc_coords(&Coords::AbsCoord(3, 4), (50, 60)), (50, 60, 3, 4));
    let rel = Coords::RelCoord(FinishedRelCoord::OneCoord(RelCoordPair(5, Direction::Left)));
    assert_eq!(calc_coords(&rel, (50, 60)), (50, 60, 45, 60));
}

#[test]
fn key_events_become_characters() {
    assert_eq!(key_to_char("Enter"), Some('\n'));
    assert_eq!(key_to_char("a"), Some('a'));
    assert_eq!(key_to_char(";"), Some(';'));
    assert_eq!(key_to_char("@"), Some('@'));
    assert_eq!(key_to_char("Escape"), None);
    assert_eq!(key_to_char("Backspace"), None);
    assert_eq!(key_to_char("Shift"), None);
    assert_eq!(key_to_char("Entry"), None);
    assert_eq!(key_to_char(""), None);
    assert_eq!(key_to_char("é"), None);
}

#[test]
fn typing_a_key_opens_advances_or_finishes() {
    let cursor = (50, 50);
    let open = match type_key(None, 'l', cursor) {
        KeyOutcome::Open(fsm) => fsm,
        other => panic!("{:?}", other),
    };
    assert_eq!(open, CreateComFSM::new('l').unwrap());
    assert_eq!(type_key(None, 'z', cursor), KeyOutcome::Rejected('z'));
    let open = match type_key(Some(open), '5', cursor) {
        KeyOutcome::Open(fsm) => fsm,
        other => panic!("{:?}", other),
    };
    match type_key(Some(open), '\n', cursor) {
        KeyOutcome::Finished(com) => assert_eq!(com, finished("l5\n", cursor)),
        other => panic!("{:?}", other),
    }
}

#[test]
fn text_is_asked_for_only_when_a_text_is_drawn() {
    let text = finished("t\n", (1, 1));
    let line = finished("l\n", (1, 1));
    assert!(wants_text(&text, &SelectState::Off));
    assert!(wants_text(&text, &SelectState::SelectModeOn));
    assert!(!wants_text(&text, &SelectState::FormsSelected));
    assert!(!wants_text(&line, &SelectState::Off));
}

#[test]
fn a_move_moves_the_reference_point() {
    let effect = parse_command(finished("5j\n", (50, 50)), &SelectState::Off, (50, 50), String::new());
    assert_eq!(effect, CommandEffect::MoveCursor(50, 55));
    let effect =
        parse_command(finished("a7;8;\n", (50, 50)), &SelectState::Off, (50, 50), String::new());
    assert_eq!(effect, CommandEffect::MoveCursor(7, 8));
}

#[test]
fn a_move_moves_the_picked_shapes() {
    let effect = parse_command(
        finished("5j\n", (50, 50)),
        &SelectState::FormsSelected,
        (50, 50),
        String::new(),
    );
    assert_eq!(
        effect,
        CommandEffect::MoveSelection(Coords::RelCoord(FinishedRelCoord::OneCoord(RelCoordPair(
            5,
            Direction::Down
        ))))
    );
}

#[test]
fn a_shape_command_adds_the_shape_and_its_handle() {
    let cursor = (50, 50);
    match parse_command(finished("l5j\n", cursor), &SelectState::Off, cursor, String::new()) {
        CommandEffect::AddForm(Form::Line(line), handle) => {
            assert_eq!(line, Line { x1: 50, y1: 50, x2: 50, y2: 55, color: "red".to_string() });
            assert_eq!(handle, SelectableOverlayData::new(50, 50, 50, 55));
        }
        other => panic!("{:?}", other),
    }
    match parse_command(finished("r10h;20k@blue\n", cursor), &SelectState::Off, cursor, String::new()) {
        CommandEffect::AddForm(Form::Rect(rect), handle) => {
            assert_eq!(
                rect,
                Rect {
                    x: 40,
                    y: 30,
                    width: 10,
                    height: 20,
                    rx: 0,
                    ry: 0,
                    border_color: String::new(),
                    inner_color: "blue".to_string()
                }
            );
            assert_eq!(handle, SelectableOverlayData::new(30, 40, 50, 50));
        }
        other => panic!("{:?}", other),
    }
    match parse_command(finished("c25\n", cursor), &SelectState::Off, cursor, String::new()) {
        CommandEffect::AddForm(Form::Circle(circle), _) => {
            assert_eq!(circle, Circle { radius: 25, x: 50, y: 50, color: "red".to_string() });
        }
        other => panic!("{:?}", other),
    }
    match parse_command(finished("t\n", cursor), &SelectState::Off, cursor, "hi".to_string()) {
        CommandEffect::AddForm(Form::Text(text), _) => {
            assert_eq!(
                text,
                Text { x: 50, y: 50, text: "hi".to_string(), font_size: 1, color: "red".to_string() }
            );
        }
        other => panic!("{:?}", other),
    }
}

#[test]
fn modifiers_of_a_fresh_command_are_empty() {
    let fsm = CreateComFSM::new('l').unwrap();
    assert_eq!(*fsm.mods(), Modifiers::new());
    assert_eq!(Modifiers::new(), Modifiers::new_with_state(false, false, false));
    assert!(!fsm.mods().move_cursor() && !fsm.mods().collide() && !fsm.mods().cursor_is_middle());
}

#[test]
fn select_state_compares() {
    assert_eq!(SelectState::Off, SelectState::Off);
    assert_ne!(SelectState::Off, SelectState::SelectModeOn);
    assert_ne!(SelectState::SelectModeOn, SelectState::FormsSelected);
    let com = Command::new(CommandType::Move, None, Coords::AbsCoord(1, 1), None, Modifiers::new());
    assert!(!wants_text(&com, &SelectState::Off));
}

#[test]
fn keys_in_select_mode_edit_the_list() {
    let on = SelectState::SelectModeOn;
    assert_eq!(
        key_action(&on, false, true, "a"),
        KeyAction::EditSelection { edit: SelectionEdit::Append('a'), confirm: false }
    );
    assert_eq!(
        key_action(&on, false, true, ","),
        KeyAction::EditSelection { edit: SelectionEdit::Append(','), confirm: false }
    );
    assert_eq!(
        key_action(&on, false, true, "Backspace"),
        KeyAction::EditSelection { edit: SelectionEdit::EraseLast, confirm: false }
    );
    assert_eq!(
        key_action(&on, false, false, "Backspace"),
        KeyAction::EditSelection { edit: SelectionEdit::Keep, confirm: false }
    );
    assert_eq!(
        key_action(&on, false, true, "Enter"),
        KeyAction::EditSelection { edit: SelectionEdit::Keep, confirm: true }
    );
    assert_eq!(
        key_action(&on, true, true, "Escape"),
        KeyAction::EditSelection { edit: SelectionEdit::Keep, confirm: false }
    );
    assert_eq!(
        key_action(&on, true, true, "é"),
        KeyAction::EditSelection { edit: SelectionEdit::Keep, confirm: false }
    );
}

#[test]
fn keys_on_picked_shapes() {
    let picked = SelectState::FormsSelected;
    assert_eq!(key_action(&picked, false, false, "d"), KeyAction::Delete);
    assert_eq!(key_action(&picked, false, false, "y"), KeyAction::Yank);
    assert_eq!(key_action(&picked, false, false, "g"), KeyAction::Group);
    assert_eq!(key_action(&picked, true, true, "d"), KeyAction::Delete);
    assert_eq!(key_action(&picked, false, false, "p"), KeyAction::Paste);
    assert_eq!(key_action(&picked, false, false, "5"), KeyAction::Type('5'));
    // Outside the picked state the same keys are typed.
    assert_eq!(key_action(&SelectState::Off, false, false, "d"), KeyAction::Type('d'));
    assert_eq!(key_action(&SelectState::Off, false, false, "y"), KeyAction::Type('y'));
    assert_eq!(key_action(&SelectState::Off, false, false, "g"), KeyAction::Type('g'));
}

#[test]
fn keys_outside_select_mode() {
    let off = SelectState::Off;
    assert_eq!(key_action(&off, true, true, "Escape"), KeyAction::ClearSelection);
    assert_eq!(key_action(&off, false, false, "e"), KeyAction::StartSelecting);
    assert_eq!(key_action(&off, true, true, "e"), KeyAction::Type('e'));
    assert_eq!(key_action(&off, true, true, "p"), KeyAction::Paste);
    assert_eq!(key_action(&off, true, true, "Backspace"), KeyAction::TakeBack);
    assert_eq!(key_action(&off, false, false, "Backspace"), KeyAction::Ignore);
    assert_eq!(key_action(&off, false, false, "u"), KeyAction::Undo);
    assert_eq!(key_action(&off, true, true, "u"), KeyAction::Type('u'));
    assert_eq!(key_action(&off, false, true, "U"), KeyAction::Redo);
    assert_eq!(key_action(&off, true, true, "U"), KeyAction::Type('U'));
    assert_eq!(key_action(&off, true, true, "Enter"), KeyAction::Type('\n'));
    assert_eq!(key_action(&off, false, false, "l"), KeyAction::Type('l'));
    assert_eq!(key_action(&off, false, false, "Shift"), KeyAction::Ignore);
    assert_eq!(key_action(&off, false, false, ""), KeyAction::Ignore);
}

#[test]
fn key_names_compare_whole() {
    assert!(is_key("Enter", "Enter"));
    assert!(!is_key("Enter", "Ente"));
    assert!(!is_key("Ente", "Enter"));
    assert!(!is_key("enter", "Enter"));
    assert!(is_key("", ""));
}

#[test]
fn selection_track_marks_the_name_typed_last() {
    let mut track = SelectionTrack::new();
    // "a" typed: position 0 is named last.
    let change = track.follow(&vec![0], false, 3, 3);
    assert_eq!(change, MarkChange { unmark: None, mark: vec![0] });
    assert_eq!(track, SelectionTrack { last_idx: Some(0), last_len: Some(1) });
    // "a," typed: nothing new is named.
    let change = track.follow(&vec![0], false, 3, 3);
    assert_eq!(change, MarkChange { unmark: None, mark: vec![] });
    // "a,c" typed: the list has grown past its first length, the old mark stays.
    let change = track.follow(&vec![0, 2], false, 3, 3);
    assert_eq!(change, MarkChange { unmark: None, mark: vec![2] });
    assert_eq!(track, SelectionTrack { last_idx: Some(2), last_len: Some(1) });
    // "a" again: the list is as short as at first, the mark of `c` goes.
    let change = track.follow(&vec![0], false, 3, 3);
    assert_eq!(change, MarkChange { unmark: Some(2), mark: vec![0] });
    // The list is emptied.
    let change = track.follow(&vec![], true, 3, 3);
    assert_eq!(change, MarkChange { unmark: Some(0), mark: vec![] });
    assert_eq!(track, SelectionTrack { last_idx: None, last_len: Some(1) });
}

#[test]
fn selection_track_skips_positions_without_a_shape() {
    let mut track = SelectionTrack::new();
    let change = track.follow(&vec![7], false, 3, 3);
    assert_eq!(change, MarkChange { unmark: None, mark: vec![] });
    assert_eq!(track, SelectionTrack { last_idx: Some(7), last_len: Some(1) });
}

#[test]
fn selection_track_marks_every_listed_handle_when_nothing_is_named_last() {
    let mut track = SelectionTrack::new();
    // Positions are listed but the list itself counts as empty.
    let change = track.follow(&vec![0, 5, 2, 1], true, 3, 2);
    assert_eq!(change, MarkChange { unmark: None, mark: vec![0, 1] });
    assert_eq!(track, SelectionTrack { last_idx: None, last_len: Some(4) });
}

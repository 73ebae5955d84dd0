use vimp::components::SelectableOverlayData;
use vimp::graphics::{
    key_from_four, move_point, Circle, Form, Group, Line, Rect, Text, TrueSignalClone,
};
use vimp::parser::coords::{Coords, Direction, FinishedRelCoord, RelCoordPair};
use vimp::parser::{Command, CommandType, CreateComFSM, FSMResult, Modifiers};

fn finished(keys: &str, cursor: (u32, u32)) -> Command {
    match CreateComFSM::from(keys.to_string(), cursor) {
        FSMResult::OkCommand(com) => com,
        other => panic!("no command from {:?}: {:?}", keys, other),
    }
}

fn open(keys: &str, cursor: (u32, u32)) -> CreateComFSM {
    match CreateComFSM::from(keys.to_string(), cursor) {
        FSMResult::OkFSM(fsm) => fsm,
        other => panic!("no open state from {:?}: {:?}", keys, other),
    }
}

fn left(by: u32) -> Coords {
    Coords::RelCoord(FinishedRelCoord::OneCoord(RelCoordPair(by, Direction::Left)))
}

#[test]
fn key_from_four_packs_side_by_side() {
    assert_eq!(key_from_four(0, 0, 0, 0), 0);
    assert_eq!(key_from_four(0, 0, 0, 7), 7);
    assert_eq!(key_from_four(1, 2, 3, 4), (1u128 << 96) + (2u128 << 64) + (3u128 << 32) + 4);
    assert_eq!(key_from_four(u32::MAX, u32::MAX, u32::MAX, u32::MAX), u128::MAX);
    assert_ne!(key_from_four(1, 0, 0, 0), key_from_four(0, 1, 0, 0));
    assert_ne!(key_from_four(0, 0, 1, 0), key_from_four(0, 0, 0, 1));
}

#[test]
fn points_shift_by_absolute_and_displace_by_relative_coordinates() {
    assert_eq!(move_point((10, 20), &Coords::AbsCoord(3, 4)), (13, 24));
    assert_eq!(move_point((u32::MAX, 20), &Coords::AbsCoord(3, u32::MAX)), (u32::MAX, u32::MAX));
    assert_eq!(move_point((10, 20), &left(4)), (6, 20));
    assert_eq!(move_point((10, 20), &left(40)), (0, 20));
}

#[test]
fn line_from_a_quadruple_is_red() {
    let line = Line::from((1, 2, 3, 4));
    assert_eq!(line, Line { x1: 1, y1: 2, x2: 3, y2: 4, color: "red".to_string() });
    assert_eq!(line.key(), key_from_four(1, 2, 3, 4));
}

#[test]
fn line_from_a_command() {
    let line = Line::try_from(finished("l5j@teal\n", (50, 50)), (50, 50)).unwrap();
    assert_eq!(line, Line { x1: 50, y1: 50, x2: 50, y2: 55, color: "teal".to_string() });
    let line = Line::try_from(finished("la1;2;\n", (50, 50)), (9, 8)).unwrap();
    assert_eq!(line, Line { x1: 9, y1: 8, x2: 1, y2: 2, color: "red".to_string() });
    let with_start = Command::new(
        CommandType::Line,
        Some(Coords::AbsCoord(1, 1)),
        Coords::AbsCoord(5, 6),
        None,
        Modifiers::new(),
    );
    assert_eq!(
        Line::try_from(with_start, (50, 50)).unwrap(),
        Line { x1: 1, y1: 1, x2: 5, y2: 6, color: "red".to_string() }
    );
}

#[test]
fn shapes_refuse_commands_of_another_kind() {
    let cursor = (50, 50);
    assert_eq!(Line::try_from(finished("r\n", cursor), cursor), Err(CommandType::Rectangle));
    assert_eq!(Line::try_from(finished("5j\n", cursor), cursor), Err(CommandType::Move));
    assert_eq!(Rect::try_from(finished("l\n", cursor), cursor), Err(CommandType::Line));
    assert_eq!(Rect::try_from(finished("c7\n", cursor), cursor), Err(CommandType::Circle(7)));
    assert_eq!(
        Text::try_from(finished("l\n", cursor), cursor, "x".to_string()),
        Err(CommandType::Line)
    );
    assert_eq!(Circle::try_from(finished("t\n", cursor), cursor), Err(CommandType::Text));
    assert_eq!(
        Form::try_from(finished("5j\n", cursor), cursor, String::new()),
        Err(CommandType::Move)
    );
}

#[test]
fn line_handle_spans_both_ends() {
    let line = Line { x1: 30, y1: 5, x2: 10, y2: 40, color: String::new() };
    assert_eq!(line.get_overlay_dims(), SelectableOverlayData::new(5, 10, 30, 40));
    let line = Line { x1: 10, y1: 40, x2: 30, y2: 5, color: String::new() };
    assert_eq!(line.get_overlay_dims(), SelectableOverlayData::new(5, 10, 30, 40));
}

#[test]
fn line_moves_both_ends() {
    let mut line = Line { x1: 10, y1: 20, x2: 30, y2: 40, color: "red".to_string() };
    line.move_form(&Coords::AbsCoord(1, 2));
    assert_eq!(line, Line { x1: 11, y1: 22, x2: 31, y2: 42, color: "red".to_string() });
    line.move_form(&left(20));
    assert_eq!(line, Line { x1: 0, y1: 22, x2: 11, y2: 42, color: "red".to_string() });
}

#[test]
fn rectangle_is_normalised() {
    let cursor = (50, 50);
    let rect = Rect::try_from(finished("r10h;20k\n", cursor), cursor).unwrap();
    assert_eq!((rect.x, rect.y, rect.width, rect.height), (40, 30, 10, 20));
    let rect = Rect::try_from(finished("r10l;20j\n", cursor), cursor).unwrap();
    assert_eq!((rect.x, rect.y, rect.width, rect.height), (50, 50, 10, 20));
    let rect = Rect::try_from(finished("ra4000000000;0;\n", cursor), (0, 4000000000)).unwrap();
    assert_eq!((rect.x, rect.y, rect.width, rect.height), (0, 0, 4000000000, 4000000000));
    assert_eq!((rect.rx, rect.ry), (0, 0));
    assert_eq!(rect.border_color, "");
    assert_eq!(rect.inner_color, "red");
}

#[test]
fn rectangle_handle_key_and_sides() {
    let rect = Rect {
        x: 1,
        y: 2,
        width: 10,
        height: 20,
        rx: 0,
        ry: 0,
        border_color: String::new(),
        inner_color: "red".to_string(),
    };
    assert_eq!(rect.key(), key_from_four(1, 2, 10, 20));
    assert_eq!(rect.get_overlay_dims(), SelectableOverlayData::new(2, 1, 11, 22));
    assert_eq!(
        rect.edges(),
        [
            ((1, 2), (11, 2)),
            ((1, 22), (11, 22)),
            ((1, 2), (1, 22)),
            ((11, 2), (11, 22)),
        ]
    );
    let mut moved = rect.clone();
    moved.move_form(&Coords::AbsCoord(5, 5));
    assert_eq!((moved.x, moved.y, moved.width, moved.height), (6, 7, 10, 20));
    moved.move_form(&left(100));
    assert_eq!((moved.x, moved.y, moved.width, moved.height), (0, 7, 10, 20));
}

#[test]
fn rectangle_handle_stops_at_the_upper_bound() {
    let rect = Rect {
        x: u32::MAX - 1,
        y: 5,
        width: 10,
        height: u32::MAX,
        rx: 0,
        ry: 0,
        border_color: String::new(),
        inner_color: String::new(),
    };
    assert_eq!(rect.get_overlay_dims(), SelectableOverlayData::new(5, u32::MAX - 1, u32::MAX, u32::MAX));
}

#[test]
fn text_from_a_command() {
    let cursor = (50, 50);
    let text = Text::try_from(finished("t5l@navy\n", cursor), cursor, "hello".to_string()).unwrap();
    assert_eq!(
        text,
        Text { x: 55, y: 50, text: "hello".to_string(), font_size: 1, color: "navy".to_string() }
    );
}

#[test]
fn text_handle_grows_with_the_text() {
    let text = Text { x: 10, y: 20, text: "hello".to_string(), font_size: 3, color: String::new() };
    assert_eq!(text.get_overlay_dims(), SelectableOverlayData::new(10, 20, 25, 23));
    // The length counts bytes.
    let text = Text { x: 10, y: 20, text: "héé".to_string(), font_size: 2, color: String::new() };
    assert_eq!(text.get_overlay_dims(), SelectableOverlayData::new(10, 20, 20, 22));
    let text = Text { x: 10, y: 20, text: "ab".to_string(), font_size: u32::MAX, color: String::new() };
    assert_eq!(text.get_overlay_dims(), SelectableOverlayData::new(10, 20, u32::MAX, u32::MAX));
}

#[test]
fn text_key_depends_on_place_and_wording() {
    let text = Text { x: 1, y: 2, text: "a".to_string(), font_size: 1, color: String::new() };
    let same = Text { x: 1, y: 2, text: "a".to_string(), font_size: 9, color: "red".to_string() };
    let other = Text { x: 1, y: 2, text: "b".to_string(), font_size: 1, color: String::new() };
    let moved = Text { x: 2, y: 1, text: "a".to_string(), font_size: 1, color: String::new() };
    assert_eq!(text.key(), same.key());
    assert_ne!(text.key(), other.key());
    assert_ne!(text.key(), moved.key());
    assert!(text.key() <= u64::MAX as u128);
}

#[test]
fn circle_new_and_from_a_command() {
    assert_eq!(Circle::new(5, 1, 2), Circle { radius: 5, x: 1, y: 2, color: "red".to_string() });
    let circle = Circle::try_from(finished("c25\n", (10, 10)), (10, 10)).unwrap();
    assert_eq!(circle, Circle { radius: 25, x: 10, y: 10, color: "red".to_string() });
    let circle = Circle::try_from(finished("ca5;6;12;", (10, 10)), (10, 10)).unwrap();
    assert_eq!(circle, Circle { radius: 12, x: 5, y: 6, color: "red".to_string() });
    assert_eq!(circle.key(), 12);
}

#[test]
fn circle_handle() {
    let circle = Circle::new(5, 20, 30);
    assert_eq!(circle.get_overlay_dims(), SelectableOverlayData::new(15, 25, 30, 40));
    let circle = Circle::new(50, 20, 30);
    assert_eq!(circle.get_overlay_dims(), SelectableOverlayData::new(0, 0, 120, 130));
    let circle = Circle::new(u32::MAX, 20, 30);
    assert_eq!(circle.get_overlay_dims(), SelectableOverlayData::new(0, 0, u32::MAX, u32::MAX));
    let circle = Circle::new(3000000000, 20, 30);
    assert_eq!(circle.get_overlay_dims(), SelectableOverlayData::new(0, 0, u32::MAX, u32::MAX));
}

#[test]
fn circle_moves_its_centre() {
    let mut circle = Circle::new(5, 20, 30);
    circle.move_form(&Coords::AbsCoord(1, 1));
    assert_eq!(circle, Circle::new(5, 21, 31));
    circle.move_form(&left(30));
    assert_eq!(circle, Circle::new(5, 0, 31));
}

#[test]
fn preview_of_an_unfinished_command() {
    let cursor = (50, 50);
    let form = open("l5j", cursor).try_into(cursor, String::new()).unwrap();
    assert_eq!(
        form,
        Form::Line(Line { x1: 50, y1: 50, x2: 50, y2: 55, color: "red".to_string() })
    );
    let form = open("c7", cursor).try_into(cursor, String::new()).unwrap();
    assert_eq!(form, Form::Circle(Circle::new(7, 50, 50)));
    let form = open("r", cursor).try_into(cursor, String::new()).unwrap();
    assert!(matches!(form, Form::Rect(_)));
    let form = open("t", cursor).try_into(cursor, "abc".to_string()).unwrap();
    assert!(matches!(form, Form::Text(_)));
    assert_eq!(open("5j", cursor).try_into(cursor, String::new()), Err(CommandType::Move));
}

#[test]
fn form_dispatches_to_its_shape() {
    let mut form = Form::Line(Line::from((1, 2, 3, 4)));
    assert_eq!(form.key(), key_from_four(1, 2, 3, 4));
    assert_eq!(form.get_overlay_dims(), SelectableOverlayData::new(2, 1, 3, 4));
    form.move_form(&Coords::AbsCoord(10, 10));
    assert_eq!(form, Form::Line(Line::from((11, 12, 13, 14))));
    assert_eq!(form.deep_clone(), form);
    assert_eq!(form.clone(), form);
    let circle = Form::Circle(Circle::new(9, 1, 1));
    assert_eq!(circle.key(), 9);
}

#[test]
fn empty_group_has_the_default_box() {
    let group = Group::from_iter(vec![]);
    assert_eq!(group.get_overlay_dims(), SelectableOverlayData::new(0, 0, 100, 100));
    assert_eq!((group.left(), group.top(), group.width(), group.height()), (0, 0, 100, 100));
}

#[test]
fn group_box_surrounds_its_members() {
    let group = Group::from_iter(vec![
        Form::Line(Line::from((10, 20, 30, 40))),
        Form::Circle(Circle::new(5, 50, 8)),
        Form::Line(Line::from((7, 60, 9, 70))),
    ]);
    // Handles: (20, 10, 30, 40), (45, 3, 60, 18), (60, 7, 9, 70).
    assert_eq!(group.get_overlay_dims(), SelectableOverlayData::new(20, 3, 60, 70));
    assert_eq!(group.top(), 20);
    assert_eq!(group.left(), 3);
    assert_eq!(group.width(), 60);
    assert_eq!(group.height(), 70);
}

#[test]
fn group_moves_and_copies_all_members() {
    let inner = Group::from_iter(vec![Form::Circle(Circle::new(1, 5, 5))]);
    let mut group = Group::from_iter(vec![
        Form::Line(Line::from((10, 20, 30, 40))),
        Form::Group(inner),
    ]);
    let copy = group.deep_clone();
    assert_eq!(copy, group);
    group.move_form(&Coords::AbsCoord(1, 2));
    assert_eq!(
        group,
        Group::from_iter(vec![
            Form::Line(Line::from((11, 22, 31, 42))),
            Form::Group(Group::from_iter(vec![Form::Circle(Circle::new(1, 6, 7))])),
        ])
    );
    assert_ne!(copy, group);
    let mut form = Form::Group(copy);
    form.move_form(&left(8));
    assert_eq!(
        form,
        Form::Group(Group::from_iter(vec![
            Form::Line(Line::from((2, 20, 22, 40))),
            Form::Group(Group::from_iter(vec![Form::Circle(Circle::new(1, 0, 5))])),
        ]))
    );
    assert_eq!(form.get_overlay_dims(), SelectableOverlayData::new(0, 2, 22, 40));
}

#[test]
fn group_key_depends_on_its_members() {
    let a = Group::from_iter(vec![Form::Circle(Circle::new(1, 5, 5))]);
    let b = Group::from_iter(vec![Form::Circle(Circle::new(1, 9, 9))]);
    let c = Group::from_iter(vec![Form::Circle(Circle::new(2, 5, 5))]);
    assert_eq!(a.key(), b.key());
    assert_ne!(a.key(), c.key());
    assert!(Form::Group(a).key() <= u64::MAX as u128);
}

#[test]
fn css_percentages() {
    assert_eq!(vimp::graphics::format_css(0), "0%");
    assert_eq!(vimp::graphics::format_css(50), "50%");
    assert_eq!(vimp::graphics::format_css(u32::MAX), "4294967295%");
    assert_eq!(
        Line::from((1, 20, 300, 4000)).css_coords(),
        ("1%".to_string(), "20%".to_string(), "300%".to_string(), "4000%".to_string())
    );
}

#[test]
fn line_in_words() {
    assert_eq!(Line::from((1, 20, 300, 0)).to_string(), "Line: x1=1, y1=20, x2=300, y2=0");
}

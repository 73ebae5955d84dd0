use vimp::parser::coords::{
    AbsCoord, CoordFSM, Coords, Direction, FinishedRelCoord, RelCoord, RelCoordPair,
};
use vimp::parser::keys::{
    displace, push_num, short_distance, to_digit, FastDirection, FastDirectionType,
};
use vimp::parser::{ModifierType, Modifiers};

#[test]
fn digits_are_read() {
    assert_eq!(to_digit('0'), Some(0));
    assert_eq!(to_digit('7'), Some(7));
    assert_eq!(to_digit('9'), Some(9));
    assert_eq!(to_digit('a'), None);
    assert_eq!(to_digit('/'), None);
    assert_eq!(to_digit(':'), None);
    assert_eq!(to_digit('٣'), None);
}

#[test]
fn push_num_appends_a_decimal_digit() {
    assert_eq!(push_num(0, '0'), 0);
    assert_eq!(push_num(0, '7'), 7);
    assert_eq!(push_num(12, '3'), 123);
    assert_eq!(push_num(429496729, '5'), 4294967295);
}

#[test]
fn push_num_saturates() {
    assert_eq!(push_num(429496729, '6'), u32::MAX);
    assert_eq!(push_num(429496730, '0'), u32::MAX);
    assert_eq!(push_num(u32::MAX, '0'), u32::MAX);
    assert_eq!(push_num(u32::MAX, '9'), u32::MAX);
}

#[test]
fn quantized_distance_keys() {
    assert_eq!(short_distance('q'), Ok(5));
    assert_eq!(short_distance('e'), Ok(15));
    assert_eq!(short_distance('r'), Ok(25));
    assert_eq!(short_distance('t'), Ok(50));
    assert_eq!(short_distance('z'), Ok(75));
    for key in ['w', 'd', 'c', 'x', 'y', 'a', '5', 'Q', '\n'] {
        assert_eq!(short_distance(key), Err(()));
    }
}

#[test]
fn fast_direction_keys() {
    let (neg, neutral, pos) =
        (FastDirectionType::Neg, FastDirectionType::Neutral, FastDirectionType::Pos);
    let table = [
        ('q', neg, neg),
        ('w', neutral, neg),
        ('e', pos, neg),
        ('d', pos, neutral),
        ('c', pos, pos),
        ('x', neutral, pos),
        ('y', neg, pos),
        ('a', neg, neutral),
    ];
    for (key, horiz, vert) in table {
        let dir = FastDirection::try_from(key).unwrap();
        assert_eq!(dir, FastDirection { horiz, vert });
        assert_eq!(FastDirection::into(dir), key);
    }
}

#[test]
fn fast_direction_rejects_other_keys() {
    assert_eq!(
        FastDirection::try_from('z'),
        Err("Failed converting to FastDirection: z".to_string())
    );
    assert_eq!(
        FastDirection::try_from('5'),
        Err("Failed converting to FastDirection: 5".to_string())
    );
}

#[test]
fn axis_displacement_is_signed() {
    assert_eq!(FastDirectionType::Pos.resolve(7), 7);
    assert_eq!(FastDirectionType::Neg.resolve(7), -7);
    assert_eq!(FastDirectionType::Neutral.resolve(7), 0);
    assert_eq!(FastDirectionType::Pos.resolve(u32::MAX), 4294967295);
    assert_eq!(FastDirectionType::Neg.resolve(u32::MAX), -4294967295);
}

#[test]
fn displace_clamps_both_ways() {
    assert_eq!(displace(10, 5), 15);
    assert_eq!(displace(10, -5), 5);
    assert_eq!(displace(10, -10), 0);
    assert_eq!(displace(10, -11), 0);
    assert_eq!(displace(u32::MAX - 1, 1), u32::MAX);
    assert_eq!(displace(u32::MAX - 1, 2), u32::MAX);
    assert_eq!(displace(0, -4294967295), 0);
    assert_eq!(displace(u32::MAX, 4294967295), u32::MAX);
}

#[test]
fn fast_direction_resolves_on_both_axes() {
    let up_left = FastDirection::try_from('q').unwrap();
    assert_eq!(up_left.resolve(5, (50, 50)), (45, 45));
    assert_eq!(up_left.resolve(75, (50, 80)), (0, 5));
    let down_right = FastDirection::try_from('c').unwrap();
    assert_eq!(down_right.resolve(15, (50, 50)), (65, 65));
    assert_eq!(down_right.resolve(15, (u32::MAX, 0)), (u32::MAX, 15));
}

#[test]
fn direction_keys() {
    for (key, dir) in [
        ('h', Direction::Left),
        ('j', Direction::Down),
        ('k', Direction::Up),
        ('l', Direction::Right),
    ] {
        assert!(Direction::is_key(key));
        assert_eq!(Direction::from(key), dir);
        assert_eq!(dir.to_char(), key);
    }
    for key in ['a', 'q', '5', 'H', ';'] {
        assert!(!Direction::is_key(key));
    }
}

#[test]
fn relative_pair_moves_along_one_axis() {
    assert_eq!(RelCoordPair(5, Direction::Up).get_coords(50, 50), (50, 45));
    assert_eq!(RelCoordPair(5, Direction::Down).get_coords(50, 50), (50, 55));
    assert_eq!(RelCoordPair(5, Direction::Left).get_coords(50, 50), (45, 50));
    assert_eq!(RelCoordPair(5, Direction::Right).get_coords(50, 50), (55, 50));
}

#[test]
fn relative_resolution_is_never_negative() {
    assert_eq!(RelCoordPair(51, Direction::Up).get_coords(50, 50), (50, 0));
    assert_eq!(RelCoordPair(50, Direction::Left).get_coords(50, 50), (0, 50));
    assert_eq!(RelCoordPair(u32::MAX, Direction::Left).get_coords(50, 50), (0, 50));
    assert_eq!(RelCoordPair(u32::MAX, Direction::Up).get_coords(0, 0), (0, 0));
    let both = FinishedRelCoord::TwoCoords(
        RelCoordPair(100, Direction::Left),
        RelCoordPair(100, Direction::Up),
    );
    assert_eq!(both.resolve_with_offset((30, 40)), (0, 0));
}

#[test]
fn relative_resolution_stops_at_the_upper_bound() {
    assert_eq!(
        RelCoordPair(20, Direction::Right).get_coords(u32::MAX - 5, 1),
        (u32::MAX, 1)
    );
    assert_eq!(
        RelCoordPair(u32::MAX, Direction::Down).get_coords(1, 1),
        (1, u32::MAX)
    );
}

#[test]
fn displacements_apply_in_sequence() {
    // The second step starts where the first one was clamped.
    let frc = FinishedRelCoord::TwoCoords(
        RelCoordPair(60, Direction::Left),
        RelCoordPair(10, Direction::Right),
    );
    assert_eq!(frc.resolve_with_offset((50, 50)), (10, 50));
    assert_eq!(frc.resolve_fcp((50, 50)), (10, 50));
    let one = FinishedRelCoord::OneCoord(RelCoordPair(5, Direction::Down));
    assert_eq!(one.resolve_with_offset((50, 50)), (50, 55));
    assert_eq!(one.resolve_fcp((0, 0)), (0, 5));
}

#[test]
fn coords_resolve_against_the_reference_point() {
    assert_eq!(Coords::AbsCoord(3, 4).resolve((50, 50)), (3, 4));
    assert_eq!(Coords::from_cursor((7, 8)), Coords::AbsCoord(7, 8));
    let rel = Coords::RelCoord(FinishedRelCoord::OneCoord(RelCoordPair(5, Direction::Right)));
    assert_eq!(rel.resolve((50, 50)), (55, 50));
    assert_eq!(rel.resolve((0, 1)), (5, 1));
}

#[test]
fn absolute_sub_machine() {
    let first = AbsCoord::EnteringFirstNum(1);
    assert_eq!(first.advance('2'), Err(AbsCoord::EnteringFirstNum(12)));
    assert_eq!(first.advance(';'), Err(AbsCoord::EnteringSecondNum(1, 0)));
    assert_eq!(first.advance('x'), Err(first));
    let second = AbsCoord::EnteringSecondNum(1, 2);
    assert_eq!(second.advance('3'), Err(AbsCoord::EnteringSecondNum(1, 23)));
    assert_eq!(second.advance(';'), Ok(Coords::AbsCoord(1, 2)));
    assert_eq!(second.advance('\n'), Err(second));
    assert_eq!(first.get_coords(), Coords::AbsCoord(1, 0));
    assert_eq!(second.get_coords(), Coords::AbsCoord(1, 2));
}

#[test]
fn relative_sub_machine() {
    let pair = RelCoordPair(5, Direction::Down);
    assert_eq!(RelCoord::EnteringFirstNum(5).advance('0'), Err(RelCoord::EnteringFirstNum(50)));
    assert_eq!(
        RelCoord::EnteringFirstNum(5).advance('j'),
        Err(RelCoord::FirstNumAndDirection(pair))
    );
    for key in ['q', 'e', 'r', 't', 'z', ';', '\n', 'a'] {
        assert_eq!(RelCoord::EnteringFirstNum(5).advance(key), Err(RelCoord::EnteringFirstNum(5)));
    }
    assert_eq!(
        RelCoord::FirstNumAndDirection(pair).advance('\n'),
        Ok(FinishedRelCoord::OneCoord(pair))
    );
    assert_eq!(
        RelCoord::FirstNumAndDirection(pair).advance(';'),
        Err(RelCoord::EnteringSecondNum(pair, 0))
    );
    assert_eq!(
        RelCoord::FirstNumAndDirection(pair).advance('4'),
        Err(RelCoord::EnteringSecondNum(pair, 4))
    );
    assert_eq!(
        RelCoord::EnteringSecondNum(pair, 4).advance('2'),
        Err(RelCoord::EnteringSecondNum(pair, 42))
    );
    assert_eq!(
        RelCoord::EnteringSecondNum(pair, 4).advance('h'),
        Ok(FinishedRelCoord::TwoCoords(pair, RelCoordPair(4, Direction::Left)))
    );
    let both = RelCoord::BothNums(pair, RelCoordPair(4, Direction::Left));
    assert_eq!(
        both.advance(';'),
        Ok(FinishedRelCoord::TwoCoords(pair, RelCoordPair(4, Direction::Left)))
    );
    assert_eq!(
        both.advance('\n'),
        Ok(FinishedRelCoord::TwoCoords(pair, RelCoordPair(4, Direction::Left)))
    );
    assert_eq!(both.advance('1'), Err(both));
}

#[test]
fn accumulated_distance_saturates() {
    let dir = FastDirection::try_from('d').unwrap();
    assert_eq!(
        RelCoord::EnteringDistance(dir, u32::MAX - 3).advance('q'),
        Err(RelCoord::EnteringDistance(dir, u32::MAX))
    );
    assert_eq!(
        RelCoord::EnteringDistance(dir, 10).advance('z'),
        Err(RelCoord::EnteringDistance(dir, 85))
    );
}

#[test]
fn coordinate_machine_dispatches_by_dialect() {
    assert_eq!(
        CoordFSM::Abs(AbsCoord::EnteringSecondNum(1, 2)).advance(';'),
        Ok(Coords::AbsCoord(1, 2))
    );
    let pair = RelCoordPair(5, Direction::Down);
    assert_eq!(
        CoordFSM::Rel(RelCoord::FirstNumAndDirection(pair)).advance('\n'),
        Ok(Coords::RelCoord(FinishedRelCoord::OneCoord(pair)))
    );
    assert_eq!(
        CoordFSM::Rel(RelCoord::EnteringFirstNum(5)).advance('j'),
        Err(CoordFSM::Rel(RelCoord::FirstNumAndDirection(pair)))
    );
}

#[test]
fn ending_a_coordinate_where_it_stands() {
    let pair = RelCoordPair(5, Direction::Down);
    let other = RelCoordPair(6, Direction::Left);
    let one = Coords::RelCoord(FinishedRelCoord::OneCoord(pair));
    let at = (50, 50);
    assert_eq!(Coords::from_rel(RelCoord::FirstNumAndDirection(pair), at), one);
    assert_eq!(Coords::from_rel(RelCoord::EnteringSecondNum(pair, 9), at), one);
    assert_eq!(
        Coords::from_rel(RelCoord::EnteringFirstNum(9), at),
        Coords::RelCoord(FinishedRelCoord::OneCoord(RelCoordPair(0, Direction::Up)))
    );
    assert_eq!(
        Coords::from_rel(RelCoord::BothNums(pair, other), at),
        Coords::RelCoord(FinishedRelCoord::TwoCoords(pair, other))
    );
    let dir = FastDirection::try_from('e').unwrap();
    assert_eq!(Coords::from_rel(RelCoord::Direction(dir), at), Coords::AbsCoord(55, 45));
    assert_eq!(
        Coords::from_rel(RelCoord::EnteringDistance(dir, 20), at),
        Coords::AbsCoord(70, 30)
    );
    assert_eq!(
        Coords::from_fsm(CoordFSM::Abs(AbsCoord::EnteringFirstNum(4)), at),
        Coords::AbsCoord(4, 0)
    );
    assert_eq!(
        Coords::from_fsm(CoordFSM::Rel(RelCoord::EnteringDistance(dir, 20)), at),
        Coords::AbsCoord(70, 30)
    );
}

#[test]
fn reopening_a_finished_coordinate() {
    assert_eq!(
        CoordFSM::from(Coords::AbsCoord(3, 4), (50, 50)),
        CoordFSM::Abs(AbsCoord::EnteringSecondNum(3, 4))
    );
    let rel = Coords::RelCoord(FinishedRelCoord::OneCoord(RelCoordPair(5, Direction::Up)));
    assert_eq!(
        CoordFSM::from(rel, (50, 50)),
        CoordFSM::Abs(AbsCoord::EnteringSecondNum(50, 45))
    );
}

#[test]
fn modifier_keys() {
    assert_eq!(ModifierType::try_from('m'), Ok(ModifierType::CursorIsMiddle));
    assert_eq!(ModifierType::try_from('c'), Ok(ModifierType::Collide));
    assert_eq!(ModifierType::try_from('o'), Ok(ModifierType::MoveCursor));
    assert_eq!(ModifierType::try_from('x'), Err('x'));
    assert_eq!(ModifierType::MoveCursor.bit(), 0);
    assert_eq!(ModifierType::Collide.bit(), 1);
    assert_eq!(ModifierType::CursorIsMiddle.bit(), 2);
}

#[test]
fn modifiers_are_three_independent_flags() {
    let none = Modifiers::new();
    assert!(!none.move_cursor() && !none.collide() && !none.cursor_is_middle());
    for bits in 0..8u8 {
        let (a, b, c) = (bits & 1 == 1, bits & 2 == 2, bits & 4 == 4);
        let mods = Modifiers::new_with_state(a, b, c);
        assert_eq!(mods.move_cursor(), a);
        assert_eq!(mods.collide(), b);
        assert_eq!(mods.cursor_is_middle(), c);
        assert_eq!(mods.get(ModifierType::MoveCursor), a);
        assert_eq!(mods.get(ModifierType::Collide), b);
        assert_eq!(mods.get(ModifierType::CursorIsMiddle), c);
    }
    assert_eq!(Modifiers::new(), Modifiers::new_with_state(false, false, false));
}

#[test]
fn setting_a_modifier_keeps_the_others() {
    let mut mods = Modifiers::new();
    mods.set(ModifierType::Collide);
    assert_eq!(mods, Modifiers::new_with_state(false, true, false));
    mods.set(ModifierType::Collide);
    assert_eq!(mods, Modifiers::new_with_state(false, true, false));
    mods.set(ModifierType::MoveCursor);
    assert_eq!(mods, Modifiers::new_with_state(true, true, false));
    mods.set(ModifierType::CursorIsMiddle);
    assert_eq!(mods, Modifiers::new_with_state(true, true, true));
}

#[test]
fn displace_takes_any_delta() {
    assert_eq!(displace(5, i64::MAX), u32::MAX);
    assert_eq!(displace(5, i64::MIN), 0);
    assert_eq!(displace(0, 0), 0);
}

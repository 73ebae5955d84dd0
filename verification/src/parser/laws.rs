//! What holds of the command language as a whole.

use vstd::prelude::*;

use crate::parser::coords::{
    direction_of, AbsCoord, CoordFSM, Coords, Direction, FinishedRelCoord, RelCoord, RelCoordPair,
};
use crate::parser::keys::{clamp_u32, digit_value, pushed, quantized_distance, FastDirection};
use crate::parser::modifiers::{modifier_of, ModifierType, Modifiers};
use crate::parser::{CommandType, CommandView, CoordState, FSMResult, FSMResultView, FsmView};

verus! {

/// Parsing is deterministic: two outcomes of parsing the same keys against
/// the same reference point hold the same command, state or rejected key,
/// part for part.
pub proof fn lemma_replay_is_deterministic(
    first: FSMResult,
    second: FSMResult,
    keys: Seq<char>,
    cursor: (u32, u32),
)
    requires
        first@ == FsmView::parse(keys, cursor),
        second@ == FsmView::parse(keys, cursor),
    ensures
        first@ == second@,
        first matches FSMResult::OkCommand(a) ==> (second matches FSMResult::OkCommand(b) && a@
            == b@),
{
}

/// A sequence of keys that begins with a leader and holds a newline behind
/// it always ends in a command.
pub proof fn lemma_newline_ends_command(keys: Seq<char>, cursor: (u32, u32))
    requires
        keys.len() > 0,
        FsmView::leader(keys[0]) is Some,
        exists|i: int| 1 <= i < keys.len() && keys[i] == '\n',
    ensures
        FsmView::parse(keys, cursor) is OkCommand,
{
    let i = choose|i: int| 1 <= i < keys.len() && keys[i] == '\n';
    let rest = keys.drop_first();
    assert(rest[i - 1] == '\n');
    lemma_run_reaches_newline(FsmView::leader(keys[0]).unwrap(), rest, i - 1, cursor);
}

/// Typing keys that hold a newline at position `at` ends in a command.
pub proof fn lemma_run_reaches_newline(fsm: FsmView, keys: Seq<char>, at: int, cursor: (u32, u32))
    requires
        0 <= at < keys.len(),
        keys[at] == '\n',
    ensures
        fsm.run(keys, cursor) is OkCommand,
    decreases keys.len(),
{
    if at > 0 {
        match fsm.step(keys[0], cursor) {
            Ok(_) => {},
            Err(next) => {
                assert(keys.drop_first()[at - 1] == '\n');
                lemma_run_reaches_newline(next, keys.drop_first(), at - 1, cursor);
            },
        }
    }
}

/// Resolving a relative coordinate never gives a coordinate below zero, and
/// never wraps: each displacement lands on the exact sum where that is a
/// `u32`, on zero where the sum would be negative, and on `u32::MAX` where it
/// would be larger.
pub proof fn lemma_relative_resolution_is_clamped(frc: FinishedRelCoord, off: (u32, u32))
    ensures
        frc.resolved(off).0 >= 0,
        frc.resolved(off).1 >= 0,
        frc matches FinishedRelCoord::OneCoord(rcp) ==> {
            let x = off.0 + rcp.offset().0;
            let y = off.1 + rcp.offset().1;
            &&& frc.resolved(off).0 == if x < 0 {
                0
            } else if x > u32::MAX {
                u32::MAX as int
            } else {
                x
            }
            &&& frc.resolved(off).1 == if y < 0 {
                0
            } else if y > u32::MAX {
                u32::MAX as int
            } else {
                y
            }
        },
        frc matches FinishedRelCoord::TwoCoords(rcp, rcp2) ==> frc.resolved(off)
            == FinishedRelCoord::OneCoord(rcp2).resolved(
            FinishedRelCoord::OneCoord(rcp).resolved(off),
        ),
{
}

/// A displacement to the left or upwards by at least the coordinate it starts
/// from lands on zero.
pub proof fn lemma_overlong_displacement_stops_at_zero(rcp: RelCoordPair, from: (u32, u32))
    ensures
        rcp.1 == Direction::Left && rcp.0 >= from.0 ==> rcp.moved(from) == (0u32, from.1),
        rcp.1 == Direction::Up && rcp.0 >= from.1 ==> rcp.moved(from) == (from.0, 0u32),
{
}

/// A fast direction resolves without wrapping too: each coordinate of the
/// target is the exact sum, or the bound of `u32` it would cross.
pub proof fn lemma_fast_resolution_is_clamped(dir: FastDirection, dist: u32, from: (u32, u32))
    ensures
        ({
            let x = from.0 + dir.horiz.delta(dist);
            let y = from.1 + dir.vert.delta(dist);
            &&& dir.target(dist, from).0 == if x < 0 {
                0
            } else if x > u32::MAX {
                u32::MAX as int
            } else {
                x
            }
            &&& dir.target(dist, from).1 == if y < 0 {
                0
            } else if y > u32::MAX {
                u32::MAX as int
            } else {
                y
            }
        }),
{
}

/// A key that means nothing in the current state of a command is ignored:
/// the command does not end and its state stays exactly as it was.
pub proof fn lemma_invalid_key_is_ignored(fsm: FsmView, c: char, cursor: (u32, u32))
    requires
        !fsm.accepts(c),
    ensures
        fsm.step(c, cursor) == Err::<CommandView, FsmView>(fsm),
{
}

/// A key that means nothing in the current phase of a coordinate is ignored
/// by the coordinate.
pub proof fn lemma_invalid_key_is_ignored_by_coordinate(fsm: CoordFSM, c: char)
    requires
        !fsm.accepts(c),
    ensures
        fsm.spec_advance(c) == Err::<Coords, CoordFSM>(fsm),
{
}

/// The coordinate of a command only moves forward, from unstarted over
/// pending to resolved; its colour name, once opened, stays open; and no key
/// clears a modifier.
pub proof fn lemma_step_only_moves_forward(fsm: FsmView, c: char, cursor: (u32, u32))
    ensures
        fsm.step(c, cursor) matches Err(next) ==> {
            &&& next.coords.rank() >= fsm.coords.rank()
            &&& (fsm.color is Some ==> next.color is Some)
            &&& forall|m: ModifierType| fsm.mods.has(m) ==> #[trigger] next.mods.has(m)
            &&& (fsm.wf() ==> next.wf())
        },
        fsm.step(c, cursor) matches Ok(com) ==> com.mods == fsm.mods,
{
    if let Some(m) = modifier_of(c) {
        fsm.mods.lemma_with(m);
    }
}

/// Whether every character of `ds` is a decimal digit.
pub open spec fn all_digits(ds: Seq<char>) -> bool {
    forall|i: int| 0 <= i < ds.len() ==> digit_value(#[trigger] ds[i]) is Some
}

/// Digits without their first or without their last are digits still.
pub proof fn lemma_digits_stay_digits(ds: Seq<char>)
    requires
        all_digits(ds),
        ds.len() > 0,
    ensures
        all_digits(ds.drop_first()),
        all_digits(ds.drop_last()),
{
    let rest = ds.drop_first();
    let init = ds.drop_last();
    assert forall|i: int| 0 <= i < rest.len() implies digit_value(#[trigger] rest[i]) is Some by {
        assert(rest[i] == ds[i + 1]);
    }
    assert forall|i: int| 0 <= i < init.len() implies digit_value(#[trigger] init[i]) is Some by {
        assert(init[i] == ds[i]);
    }
}

/// The number that the digits `ds` spell, the first digit counting most.
pub open spec fn decimal_value(ds: Seq<char>) -> nat
    decreases ds.len(),
{
    if ds.len() == 0 {
        0
    } else {
        decimal_value(ds.drop_last()) * 10 + digit_value(ds.last()).unwrap() as nat
    }
}

/// The number held after the digits `ds` are typed behind `start`, one by
/// one.
pub open spec fn typed_number(start: u32, ds: Seq<char>) -> u32
    decreases ds.len(),
{
    if ds.len() == 0 {
        start
    } else {
        typed_number(pushed(start, ds[0]), ds.drop_first())
    }
}

/// Typing one more digit is one more push.
pub proof fn lemma_typed_number_push(start: u32, ds: Seq<char>, d: char)
    ensures
        typed_number(start, ds.push(d)) == pushed(typed_number(start, ds), d),
    decreases ds.len(),
{
    let longer = ds.push(d);
    if ds.len() == 0 {
        assert(longer[0] == d);
        assert(longer.drop_first() =~= ds);
        assert(typed_number(pushed(start, d), longer.drop_first()) == pushed(start, d));
    } else {
        assert(longer[0] == ds[0]);
        assert(longer.drop_first() =~= ds.drop_first().push(d));
        lemma_typed_number_push(pushed(start, ds[0]), ds.drop_first(), d);
    }
}

/// Digits typed from zero spell their decimal value, and `u32::MAX` once the
/// value is larger than that.
pub proof fn lemma_typed_number_is_decimal(ds: Seq<char>)
    requires
        all_digits(ds),
    ensures
        typed_number(0, ds) == clamp_u32(decimal_value(ds) as int),
    decreases ds.len(),
{
    if ds.len() > 0 {
        let init = ds.drop_last();
        assert(ds =~= init.push(ds.last()));
        lemma_digits_stay_digits(ds);
        lemma_typed_number_is_decimal(init);
        lemma_typed_number_push(0, init, ds.last());
    }
}

/// Typing one key after the other is typing them all: the keys `first` and
/// then the keys `second` end as `second` ends from where `first` ended.
pub proof fn lemma_run_in_two_parts(
    fsm: FsmView,
    first: Seq<char>,
    second: Seq<char>,
    cursor: (u32, u32),
)
    ensures
        fsm.run(first + second, cursor) == match fsm.run(first, cursor) {
            FSMResultView::OkFSM(next) => next.run(second, cursor),
            other => other,
        },
    decreases first.len(),
{
    if first.len() == 0 {
        assert(first + second =~= second);
    } else {
        assert((first + second)[0] == first[0]);
        assert((first + second).drop_first() =~= first.drop_first() + second);
        match fsm.step(first[0], cursor) {
            Ok(_) => {},
            Err(next) => {
                lemma_run_in_two_parts(next, first.drop_first(), second, cursor);
            },
        }
    }
}

/// Digits typed into a number of an absolute coordinate are typed behind
/// what the number held; nothing else changes.
pub proof fn lemma_absolute_number_is_typed(fsm: FsmView, ds: Seq<char>, cursor: (u32, u32))
    requires
        all_digits(ds),
        fsm.color is None,
        fsm.coords matches CoordState::Pending(CoordFSM::Abs(_)),
    ensures
        fsm.run(ds, cursor) == FSMResultView::OkFSM(
            FsmView {
                coords: CoordState::Pending(
                    CoordFSM::Abs(
                        match fsm.coords->Pending_0->Abs_0 {
                            AbsCoord::EnteringFirstNum(num) => AbsCoord::EnteringFirstNum(
                                typed_number(num, ds),
                            ),
                            AbsCoord::EnteringSecondNum(num, num2) => AbsCoord::EnteringSecondNum(
                                num,
                                typed_number(num2, ds),
                            ),
                        },
                    ),
                ),
                ..fsm
            },
        ),
    decreases ds.len(),
{
    if ds.len() > 0 {
        assert(digit_value(ds[0]) is Some);
        let next = fsm.step(ds[0], cursor)->Err_0;
        let rest = ds.drop_first();
        lemma_digits_stay_digits(ds);
        lemma_absolute_number_is_typed(next, rest, cursor);
    }
}

/// An absolute coordinate typed in full is the coordinate its digits spell:
/// after `a`, the digits `xs`, `;`, the digits `ys` and `;`, the command is
/// a move whose coordinate is resolved to the two decimal values, each held
/// at `u32::MAX`.
pub proof fn lemma_absolute_coordinate_is_spelled(xs: Seq<char>, ys: Seq<char>, cursor: (u32, u32))
    requires
        all_digits(xs),
        all_digits(ys),
    ensures
        FsmView::parse(seq!['a'] + xs + seq![';'] + ys + seq![';'], cursor)
            == FSMResultView::OkFSM(
            FsmView {
                coords: CoordState::Resolved(
                    Coords::AbsCoord(
                        clamp_u32(decimal_value(xs) as int),
                        clamp_u32(decimal_value(ys) as int),
                    ),
                ),
                ..FsmView::leader('a').unwrap()
            },
        ),
{
    let keys = seq!['a'] + xs + seq![';'] + ys + seq![';'];
    let opened = FsmView::leader('a').unwrap();
    assert(keys[0] == 'a');
    assert(keys.drop_first() =~= xs + (seq![';'] + (ys + seq![';'])));
    lemma_run_in_two_parts(opened, xs, seq![';'] + (ys + seq![';']), cursor);
    lemma_absolute_number_is_typed(opened, xs, cursor);
    lemma_typed_number_is_decimal(xs);
    let first = FsmView {
        coords: CoordState::Pending(CoordFSM::Abs(AbsCoord::EnteringFirstNum(typed_number(0, xs)))),
        ..opened
    };
    lemma_run_in_two_parts(first, seq![';'], ys + seq![';'], cursor);
    assert(seq![';'].drop_first() =~= Seq::<char>::empty());
    let second = FsmView {
        coords: CoordState::Pending(
            CoordFSM::Abs(AbsCoord::EnteringSecondNum(typed_number(0, xs), 0)),
        ),
        ..opened
    };
    assert(first.run(seq![';'], cursor) == FSMResultView::OkFSM(second)) by {
        reveal_with_fuel(FsmView::run, 2);
    }
    lemma_run_in_two_parts(second, ys, seq![';'], cursor);
    lemma_absolute_number_is_typed(second, ys, cursor);
    lemma_typed_number_is_decimal(ys);
    let third = FsmView {
        coords: CoordState::Pending(
            CoordFSM::Abs(AbsCoord::EnteringSecondNum(typed_number(0, xs), typed_number(0, ys))),
        ),
        ..opened
    };
    assert(third.run(seq![';'], cursor) == FSMResultView::OkFSM(
        FsmView {
            coords: CoordState::Resolved(
                Coords::AbsCoord(typed_number(0, xs), typed_number(0, ys)),
            ),
            ..opened
        },
    )) by {
        reveal_with_fuel(FsmView::run, 2);
    }
}

/// Digits typed into the first number of a relative coordinate are typed
/// behind what the number held; nothing else changes.
pub proof fn lemma_relative_number_is_typed(
    fsm: FsmView,
    num: u32,
    ds: Seq<char>,
    cursor: (u32, u32),
)
    requires
        all_digits(ds),
        fsm.color is None,
        fsm.coords == CoordState::Pending(CoordFSM::Rel(RelCoord::EnteringFirstNum(num))),
    ensures
        fsm.run(ds, cursor) == FSMResultView::OkFSM(
            FsmView {
                coords: CoordState::Pending(
                    CoordFSM::Rel(RelCoord::EnteringFirstNum(typed_number(num, ds))),
                ),
                ..fsm
            },
        ),
    decreases ds.len(),
{
    if ds.len() > 0 {
        assert(digit_value(ds[0]) is Some);
        let next = fsm.step(ds[0], cursor)->Err_0;
        let rest = ds.drop_first();
        lemma_digits_stay_digits(ds);
        lemma_relative_number_is_typed(next, pushed(num, ds[0]), rest, cursor);
    }
}

/// A relative move typed in full is the displacement its keys spell: the
/// digits `ds`, a direction key and a newline give a move by the decimal
/// value of the digits, held at `u32::MAX`, in the direction of the key.
pub proof fn lemma_relative_move_is_spelled(ds: Seq<char>, key: char, cursor: (u32, u32))
    requires
        ds.len() > 0,
        all_digits(ds),
        direction_of(key) is Some,
    ensures
        FsmView::parse(ds + seq![key, '\n'], cursor) == FSMResultView::OkCommand(
            CommandView {
                start_coords: None,
                coords: Coords::RelCoord(
                    FinishedRelCoord::OneCoord(
                        RelCoordPair(
                            clamp_u32(decimal_value(ds) as int),
                            direction_of(key).unwrap(),
                        ),
                    ),
                ),
                ctype: CommandType::Move,
                color: None,
                mods: Modifiers::empty(),
            },
        ),
{
    let keys = ds + seq![key, '\n'];
    let opened = FsmView::leader(ds[0]).unwrap();
    let rest = ds.drop_first();
    assert(keys[0] == ds[0]);
    assert(digit_value(ds[0]) is Some);
    assert(keys.drop_first() =~= rest + seq![key, '\n']);
    lemma_digits_stay_digits(ds);
    let d0 = digit_value(ds[0]).unwrap();
    lemma_run_in_two_parts(opened, rest, seq![key, '\n'], cursor);
    lemma_relative_number_is_typed(opened, d0, rest, cursor);
    lemma_typed_number_is_decimal(ds);
    assert(typed_number(0, ds) == typed_number(d0, rest));
    let typed = FsmView {
        coords: CoordState::Pending(
            CoordFSM::Rel(RelCoord::EnteringFirstNum(typed_number(0, ds))),
        ),
        ..opened
    };
    assert(seq![key, '\n'].drop_first() =~= seq!['\n']);
    assert(typed.run(seq![key, '\n'], cursor) is OkCommand) by {
        reveal_with_fuel(FsmView::run, 3);
    }
    reveal_with_fuel(FsmView::run, 3);
}

/// Distance keys add up: typing the distance key `key` `times` times into a
/// fast move adds `times` times its distance to the distance typed so far,
/// held at `u32::MAX`.
pub proof fn lemma_distance_keys_add_up(dir: FastDirection, so_far: u32, key: char, times: nat)
    requires
        quantized_distance(key) is Some,
    ensures
        ({
            let keys = Seq::new(times, |i: int| key);
            let total = clamp_u32(so_far + times * quantized_distance(key).unwrap());
            typed_distance(RelCoord::EnteringDistance(dir, so_far), keys)
                == RelCoord::EnteringDistance(dir, total)
        }),
    decreases times,
{
    let keys = Seq::new(times, |i: int| key);
    let dist = quantized_distance(key).unwrap();
    if times > 0 {
        let fewer = (times - 1) as nat;
        assert(keys.drop_first() =~= Seq::new(fewer, |i: int| key));
        let next = clamp_u32(so_far + dist);
        lemma_distance_keys_add_up(dir, next, key, fewer);
        assert(times * dist == fewer * dist + dist) by (nonlinear_arith)
            requires
                times == fewer + 1,
        ;
        assert(fewer * dist >= 0) by (nonlinear_arith)
            requires
                fewer >= 0,
                dist >= 0,
        ;
    }
}

/// The phase of a relative coordinate after the keys `keys`, or the phase
/// in which it was finished.
pub open spec fn typed_distance(phase: RelCoord, keys: Seq<char>) -> RelCoord
    decreases keys.len(),
{
    if keys.len() == 0 {
        phase
    } else {
        match phase.spec_advance(keys[0]) {
            Ok(_) => phase,
            Err(next) => typed_distance(next, keys.drop_first()),
        }
    }
}

} // verus!

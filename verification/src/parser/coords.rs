//! Coordinates: the absolute dialect, the two relative dialects, and how a
//! coordinate is resolved against the reference point.

use vstd::prelude::*;

use crate::parser::keys::{digit_value, push_num, pushed, to_digit};

pub mod rel_coords;

pub use rel_coords::{FinishedRelCoord, RelCoord, RelCoordPair};

verus! {

/// One of the four directions of the explicit relative dialect.
#[derive(Clone, Copy, Debug, PartialEq, Eq, Structural)]
pub enum Direction {
    Left,
    Right,
    Up,
    Down,
}

pub const LEFT: char = 'h';

pub const DOWN: char = 'j';

pub const UP: char = 'k';

pub const RIGHT: char = 'l';

/// The direction a direction key selects.
pub open spec fn direction_of(c: char) -> Option<Direction> {
    if c == 'h' {
        Some(Direction::Left)
    } else if c == 'j' {
        Some(Direction::Down)
    } else if c == 'k' {
        Some(Direction::Up)
    } else if c == 'l' {
        Some(Direction::Right)
    } else {
        None
    }
}

impl Direction {
    /// The key that selects this direction.
    pub open spec fn key(self) -> char {
        match self {
            Direction::Left => 'h',
            Direction::Right => 'l',
            Direction::Down => 'j',
            Direction::Up => 'k',
        }
    }

    /// Whether `c` is one of the four direction keys.
    pub fn is_key(c: char) -> (r: bool)
        ensures
            r == direction_of(c) is Some,
    {
        c == LEFT || c == DOWN || c == UP || c == RIGHT
    }

    /// The direction of a direction key.
    pub fn from(value: char) -> (r: Direction)
        requires
            direction_of(value) is Some,
        ensures
            direction_of(value) == Some(r),
    {
        if value == LEFT {
            Direction::Left
        } else if value == DOWN {
            Direction::Down
        } else if value == UP {
            Direction::Up
        } else {
            Direction::Right
        }
    }

    /// The key that selects this direction.
    pub fn to_char(&self) -> (r: char)
        ensures
            r == self.key(),
            direction_of(r) == Some(*self),
    {
        match self {
            Direction::Left => LEFT,
            Direction::Right => RIGHT,
            Direction::Down => DOWN,
            Direction::Up => UP,
        }
    }
}

/// A coordinate as a command carries it. A relative coordinate has no
/// position of its own until it is resolved against a reference point.
#[derive(Clone, Copy, Debug, PartialEq, Eq, Structural)]
pub enum Coords {
    AbsCoord(u32, u32),
    RelCoord(FinishedRelCoord),
}

/// An absolute coordinate while it is being typed.
#[derive(Clone, Copy, Debug, PartialEq, Eq, Structural)]
pub enum AbsCoord {
    /// The digits of `x`.
    EnteringFirstNum(u32),
    /// `x`, and the digits of `y`.
    EnteringSecondNum(u32, u32),
}

impl AbsCoord {
    /// The coordinate typed so far, with zero for a number not yet begun.
    pub open spec fn coords(self) -> Coords {
        match self {
            AbsCoord::EnteringFirstNum(num) => Coords::AbsCoord(num, 0),
            AbsCoord::EnteringSecondNum(num, num2) => Coords::AbsCoord(num, num2),
        }
    }

    /// Whether key `c` means something in this phase.
    pub open spec fn accepts(self, c: char) -> bool {
        digit_value(c) is Some || c == ';'
    }

    /// The transition on key `c`: `Ok` with the finished coordinate, or `Err`
    /// with the next phase. A key that means nothing leaves the phase as it
    /// is.
    pub open spec fn spec_advance(self, c: char) -> Result<Coords, AbsCoord> {
        match self {
            AbsCoord::EnteringFirstNum(num) => {
                if digit_value(c) is Some {
                    Err(AbsCoord::EnteringFirstNum(pushed(num, c)))
                } else if c == ';' {
                    Err(AbsCoord::EnteringSecondNum(num, 0))
                } else {
                    Err(self)
                }
            },
            AbsCoord::EnteringSecondNum(num1, num) => {
                if digit_value(c) is Some {
                    Err(AbsCoord::EnteringSecondNum(num1, pushed(num, c)))
                } else if c == ';' {
                    Ok(Coords::AbsCoord(num1, num))
                } else {
                    Err(self)
                }
            },
        }
    }

    /// The coordinate typed so far, with zero for a number not yet begun.
    pub fn get_coords(&self) -> (r: Coords)
        ensures
            r == self.coords(),
    {
        match self {
            AbsCoord::EnteringFirstNum(num) => Coords::AbsCoord(*num, 0),
            AbsCoord::EnteringSecondNum(num, num2) => Coords::AbsCoord(*num, *num2),
        }
    }

    /// Feeds one key to the coordinate. Returns `Ok` once the coordinate is
    /// finished and `Err` with the next phase otherwise; a key without
    /// meaning in this phase is dropped.
    pub fn advance(self, next_char: char) -> (r: Result<Coords, AbsCoord>)
        ensures
            r == self.spec_advance(next_char),
            !self.accepts(next_char) ==> r == Err::<Coords, AbsCoord>(self),
    {
        match self {
            AbsCoord::EnteringFirstNum(num) => {
                if to_digit(next_char).is_some() {
                    Err(AbsCoord::EnteringFirstNum(push_num(num, next_char)))
                } else if next_char == ';' {
                    Err(AbsCoord::EnteringSecondNum(num, 0))
                } else {
                    Err(self)
                }
            },
            AbsCoord::EnteringSecondNum(num1, num) => {
                if to_digit(next_char).is_some() {
                    Err(AbsCoord::EnteringSecondNum(num1, push_num(num, next_char)))
                } else if next_char == ';' {
                    Ok(Coords::AbsCoord(num1, num))
                } else {
                    Err(self)
                }
            },
        }
    }
}

/// A coordinate while it is being typed, in either dialect.
#[derive(Clone, Copy, Debug, PartialEq, Eq, Structural)]
pub enum CoordFSM {
    Abs(AbsCoord),
    Rel(RelCoord),
}

impl CoordFSM {
    /// Every fast direction held moves along some axis.
    pub open spec fn wf(self) -> bool {
        match self {
            CoordFSM::Abs(_) => true,
            CoordFSM::Rel(relc) => relc.wf(),
        }
    }

    /// Whether key `c` means something in this phase.
    pub open spec fn accepts(self, c: char) -> bool {
        match self {
            CoordFSM::Abs(absc) => absc.accepts(c),
            CoordFSM::Rel(relc) => relc.accepts(c),
        }
    }

    /// The transition on key `c`, in the dialect this coordinate is typed in.
    pub open spec fn spec_advance(self, c: char) -> Result<Coords, CoordFSM> {
        match self {
            CoordFSM::Abs(absc) => match absc.spec_advance(c) {
                Ok(coords) => Ok(coords),
                Err(next_state) => Err(CoordFSM::Abs(next_state)),
            },
            CoordFSM::Rel(relc) => match relc.spec_advance(c) {
                Ok(coords) => Ok(Coords::RelCoord(coords)),
                Err(next_state) => Err(CoordFSM::Rel(next_state)),
            },
        }
    }

    /// What the coordinate typed so far stands for when the command ends
    /// here. A bare number without a direction is a displacement of zero; a
    /// fast direction without a distance moves five units; a fast direction
    /// is resolved against `cursor` at once.
    pub open spec fn forced(self, cursor: (u32, u32)) -> Coords {
        match self {
            CoordFSM::Abs(absc) => absc.coords(),
            CoordFSM::Rel(relc) => match relc {
                RelCoord::FirstNumAndDirection(rcp) => Coords::RelCoord(
                    FinishedRelCoord::OneCoord(rcp),
                ),
                RelCoord::EnteringFirstNum(_) => Coords::RelCoord(
                    FinishedRelCoord::OneCoord(RelCoordPair(0, Direction::Up)),
                ),
                RelCoord::EnteringSecondNum(rcp, _) => Coords::RelCoord(
                    FinishedRelCoord::OneCoord(rcp),
                ),
                RelCoord::BothNums(rcp1, rcp2) => Coords::RelCoord(
                    FinishedRelCoord::TwoCoords(rcp1, rcp2),
                ),
                RelCoord::EnteringDistance(dir, dist) => {
                    let p = dir.target(dist, cursor);
                    Coords::AbsCoord(p.0, p.1)
                },
                RelCoord::Direction(dir) => {
                    let p = dir.target(5, cursor);
                    Coords::AbsCoord(p.0, p.1)
                },
            },
        }
    }

    /// Feeds one key to the coordinate. Returns `Ok` once the coordinate is
    /// finished and `Err` with the next phase otherwise; a key without
    /// meaning in this phase is dropped.
    pub fn advance(self, next_char: char) -> (r: Result<Coords, CoordFSM>)
        ensures
            r == self.spec_advance(next_char),
            !self.accepts(next_char) ==> r == Err::<Coords, CoordFSM>(self),
            self.wf() ==> (r matches Err(next) ==> next.wf()),
    {
        match self {
            CoordFSM::Abs(absc) => match absc.advance(next_char) {
                Ok(coords) => Ok(coords),
                Err(next_state) => Err(CoordFSM::Abs(next_state)),
            },
            CoordFSM::Rel(relc) => match relc.advance(next_char) {
                Ok(coords) => Ok(Coords::RelCoord(coords)),
                Err(next_state) => Err(CoordFSM::Rel(next_state)),
            },
        }
    }

    /// Reopens a finished coordinate for typing: its resolved position, as an
    /// absolute coordinate whose second number is being entered.
    pub fn from(value: Coords, cursor: (u32, u32)) -> (r: CoordFSM)
        ensures
            r == CoordFSM::Abs(
                AbsCoord::EnteringSecondNum(value.resolved(cursor).0, value.resolved(cursor).1),
            ),
    {
        let (x, y) = value.resolve(cursor);
        CoordFSM::Abs(AbsCoord::EnteringSecondNum(x, y))
    }
}

impl Coords {
    /// The position this coordinate denotes when the reference point is
    /// `cursor`.
    pub open spec fn resolved(self, cursor: (u32, u32)) -> (u32, u32) {
        match self {
            Coords::AbsCoord(x, y) => (x, y),
            Coords::RelCoord(fcp) => fcp.resolved(cursor),
        }
    }

    /// The reference point itself, as an absolute coordinate.
    pub fn from_cursor(cursor: (u32, u32)) -> (r: Coords)
        ensures
            r == Coords::AbsCoord(cursor.0, cursor.1),
    {
        let (x, y) = cursor;
        Coords::AbsCoord(x, y)
    }

    /// The position this coordinate denotes when the reference point is
    /// `cursor`.
    pub fn resolve(&self, cursor: (u32, u32)) -> (r: (u32, u32))
        ensures
            r == self.resolved(cursor),
    {
        match self {
            Coords::AbsCoord(x, y) => (*x, *y),
            Coords::RelCoord(fcp) => fcp.resolve_fcp(cursor),
        }
    }

    /// Ends a coordinate where the typing stopped.
    pub fn from_fsm(value: CoordFSM, cursor: (u32, u32)) -> (r: Coords)
        ensures
            r == value.forced(cursor),
    {
        match value {
            CoordFSM::Abs(abs) => abs.get_coords(),
            CoordFSM::Rel(rc) => Coords::from_rel(rc, cursor),
        }
    }

    /// Ends a relative coordinate where the typing stopped.
    pub fn from_rel(value: RelCoord, cursor: (u32, u32)) -> (r: Coords)
        ensures
            r == CoordFSM::Rel(value).forced(cursor),
    {
        let ret = match value {
            RelCoord::FirstNumAndDirection(rcp) => FinishedRelCoord::OneCoord(rcp),
            RelCoord::EnteringFirstNum(_) => FinishedRelCoord::OneCoord(
                RelCoordPair(0, Direction::Up),
            ),
            RelCoord::EnteringSecondNum(rcp, _) => FinishedRelCoord::OneCoord(rcp),
            RelCoord::BothNums(rcp1, rcp2) => FinishedRelCoord::TwoCoords(rcp1, rcp2),
            RelCoord::EnteringDistance(dir, dist) => {
                let (x, y) = dir.resolve(dist, cursor);
                return Coords::AbsCoord(x, y);
            },
            RelCoord::Direction(dir) => {
                let (x, y) = dir.resolve(5, cursor);
                return Coords::AbsCoord(x, y);
            },
        };
        Coords::RelCoord(ret)
    }
}

} // verus!

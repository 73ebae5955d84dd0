//! Relative coordinates: displacements typed either as numbers followed by a
//! direction key, or as a fast direction followed by quantized distances.

use vstd::prelude::*;

use crate::parser::coords::{direction_of, Direction};
use crate::parser::keys::{
    digit_value, displaced, push_num, pushed, quantized_distance, short_distance, to_digit,
    FastDirection,
};

verus! {

/// A distance and the direction to move it in.
#[derive(Clone, Copy, Debug, PartialEq, Eq, Structural)]
pub struct RelCoordPair(pub u32, pub Direction);

impl RelCoordPair {
    /// The signed displacement `(dx, dy)` this pair asks for.
    pub open spec fn offset(self) -> (int, int) {
        match self.1 {
            Direction::Up => (0, -(self.0 as int)),
            Direction::Down => (0, self.0 as int),
            Direction::Left => (-(self.0 as int), 0),
            Direction::Right => (self.0 as int, 0),
        }
    }

    /// The point reached from `from`: each coordinate is the exact sum where
    /// that lies in the range of `u32`, and the nearest bound where it does
    /// not.
    pub open spec fn moved(self, from: (u32, u32)) -> (u32, u32) {
        (displaced(from.0, self.offset().0), displaced(from.1, self.offset().1))
    }

    /// The point reached from `(x, y)`. A move past zero stops at zero, a
    /// move past `u32::MAX` stops there.
    pub fn get_coords(&self, x: u32, y: u32) -> (r: (u32, u32))
        ensures
            r == self.moved((x, y)),
    {
        match self.1 {
            Direction::Up => (x, y.saturating_sub(self.0)),
            Direction::Down => (x, y.saturating_add(self.0)),
            Direction::Left => (x.saturating_sub(self.0), y),
            Direction::Right => (x.saturating_add(self.0), y),
        }
    }
}

/// A finished relative coordinate: one displacement, or two applied in turn.
#[derive(Clone, Copy, Debug, PartialEq, Eq, Structural)]
pub enum FinishedRelCoord {
    OneCoord(RelCoordPair),
    TwoCoords(RelCoordPair, RelCoordPair),
}

impl FinishedRelCoord {
    /// The point reached from `off`. The second displacement starts where the
    /// first one ended.
    pub open spec fn resolved(self, off: (u32, u32)) -> (u32, u32) {
        match self {
            FinishedRelCoord::OneCoord(rcp) => rcp.moved(off),
            FinishedRelCoord::TwoCoords(rcp, rcp2) => rcp2.moved(rcp.moved(off)),
        }
    }

    /// The point reached from `off`.
    pub fn resolve_with_offset(&self, off: (u32, u32)) -> (r: (u32, u32))
        ensures
            r == self.resolved(off),
    {
        let (x, y) = off;
        match self {
            FinishedRelCoord::OneCoord(rcp) => rcp.get_coords(x, y),
            FinishedRelCoord::TwoCoords(rcp, rcp2) => {
                let (x, y) = rcp.get_coords(x, y);
                rcp2.get_coords(x, y)
            },
        }
    }

    /// The point reached from the reference point `cursor`.
    pub fn resolve_fcp(&self, cursor: (u32, u32)) -> (r: (u32, u32))
        ensures
            r == self.resolved(cursor),
    {
        self.resolve_with_offset(cursor)
    }
}

/// A relative coordinate while it is being typed.
#[derive(Clone, Copy, Debug, PartialEq, Eq, Structural)]
pub enum RelCoord {
    /// The digits of the first distance.
    EnteringFirstNum(u32),
    /// A first distance with its direction.
    FirstNumAndDirection(RelCoordPair),
    /// A first displacement and the digits of the second distance.
    EnteringSecondNum(RelCoordPair, u32),
    /// Two displacements, waiting for a terminator.
    BothNums(RelCoordPair, RelCoordPair),
    /// A fast direction, waiting for its first distance key.
    Direction(FastDirection),
    /// A fast direction and the distance typed so far.
    EnteringDistance(FastDirection, u32),
}

impl RelCoord {
    /// Every fast direction held moves along some axis.
    pub open spec fn wf(self) -> bool {
        match self {
            RelCoord::Direction(dir) => dir.wf(),
            RelCoord::EnteringDistance(dir, _) => dir.wf(),
            _ => true,
        }
    }

    /// Whether key `c` means something in this phase.
    pub open spec fn accepts(self, c: char) -> bool {
        match self {
            RelCoord::EnteringFirstNum(_) => digit_value(c) is Some || direction_of(c) is Some,
            RelCoord::FirstNumAndDirection(_) => c == '\n' || c == ';' || digit_value(c) is Some,
            RelCoord::EnteringSecondNum(_, _) => digit_value(c) is Some || direction_of(c) is Some,
            RelCoord::BothNums(_, _) => c == '\n' || c == ';',
            RelCoord::Direction(_) => quantized_distance(c) is Some,
            RelCoord::EnteringDistance(_, _) => quantized_distance(c) is Some,
        }
    }

    /// The transition on key `c`: `Ok` with the finished coordinate, or `Err`
    /// with the next phase. A key that means nothing in this phase leaves the
    /// phase as it is.
    pub open spec fn spec_advance(self, c: char) -> Result<FinishedRelCoord, RelCoord> {
        match self {
            RelCoord::EnteringFirstNum(num) => {
                if digit_value(c) is Some {
                    Err(RelCoord::EnteringFirstNum(pushed(num, c)))
                } else if let Some(dir) = direction_of(c) {
                    Err(RelCoord::FirstNumAndDirection(RelCoordPair(num, dir)))
                } else {
                    Err(self)
                }
            },
            RelCoord::FirstNumAndDirection(rcp) => {
                if c == '\n' {
                    Ok(FinishedRelCoord::OneCoord(rcp))
                } else if c == ';' {
                    Err(RelCoord::EnteringSecondNum(rcp, 0))
                } else if let Some(d) = digit_value(c) {
                    Err(RelCoord::EnteringSecondNum(rcp, d))
                } else {
                    Err(self)
                }
            },
            RelCoord::EnteringSecondNum(rcp, num) => {
                if digit_value(c) is Some {
                    Err(RelCoord::EnteringSecondNum(rcp, pushed(num, c)))
                } else if let Some(dir) = direction_of(c) {
                    Ok(FinishedRelCoord::TwoCoords(rcp, RelCoordPair(num, dir)))
                } else {
                    Err(self)
                }
            },
            RelCoord::BothNums(rcp1, rcp2) => {
                if c == '\n' || c == ';' {
                    Ok(FinishedRelCoord::TwoCoords(rcp1, rcp2))
                } else {
                    Err(self)
                }
            },
            RelCoord::Direction(dir) => {
                if let Some(dist) = quantized_distance(c) {
                    Err(RelCoord::EnteringDistance(dir, dist))
                } else {
                    Err(self)
                }
            },
            RelCoord::EnteringDistance(dir, cur_dist) => {
                if let Some(dist) = quantized_distance(c) {
                    Err(RelCoord::EnteringDistance(dir, displaced(cur_dist, dist as int)))
                } else {
                    Err(self)
                }
            },
        }
    }

    /// Feeds one key to the coordinate. Returns `Ok` once the coordinate is
    /// finished and `Err` with the next phase otherwise; a key without
    /// meaning in this phase is dropped.
    pub fn advance(self, next_char: char) -> (r: Result<FinishedRelCoord, RelCoord>)
        ensures
            r == self.spec_advance(next_char),
            !self.accepts(next_char) ==> r == Err::<FinishedRelCoord, RelCoord>(self),
            self.wf() ==> (r matches Err(next) ==> next.wf()),
    {
        match self {
            RelCoord::EnteringFirstNum(num) => {
                if to_digit(next_char).is_some() {
                    Err(RelCoord::EnteringFirstNum(push_num(num, next_char)))
                } else if Direction::is_key(next_char) {
                    Err(RelCoord::FirstNumAndDirection(RelCoordPair(num, Direction::from(next_char))))
                } else {
                    Err(self)
                }
            },
            RelCoord::FirstNumAndDirection(rcp) => {
                if next_char == '\n' {
                    Ok(FinishedRelCoord::OneCoord(rcp))
                } else if next_char == ';' {
                    Err(RelCoord::EnteringSecondNum(rcp, 0))
                } else {
                    match to_digit(next_char) {
                        Some(d) => Err(RelCoord::EnteringSecondNum(rcp, d)),
                        None => Err(self),
                    }
                }
            },
            RelCoord::EnteringSecondNum(rcp, num) => {
                if to_digit(next_char).is_some() {
                    Err(RelCoord::EnteringSecondNum(rcp, push_num(num, next_char)))
                } else if Direction::is_key(next_char) {
                    Ok(FinishedRelCoord::TwoCoords(rcp, RelCoordPair(num, Direction::from(next_char))))
                } else {
                    Err(self)
                }
            },
            RelCoord::BothNums(rcp1, rcp2) => {
                if next_char == '\n' || next_char == ';' {
                    Ok(FinishedRelCoord::TwoCoords(rcp1, rcp2))
                } else {
                    Err(self)
                }
            },
            RelCoord::Direction(dir) => match short_distance(next_char) {
                Ok(dist) => Err(RelCoord::EnteringDistance(dir, dist)),
                Err(_) => Err(self),
            },
            RelCoord::EnteringDistance(dir, cur_dist) => match short_distance(next_char) {
                Ok(dist) => Err(RelCoord::EnteringDistance(dir, cur_dist.saturating_add(dist))),
                Err(_) => Err(self),
            },
        }
    }
}

} // verus!

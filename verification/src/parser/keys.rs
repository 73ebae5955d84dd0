//! The key alphabets of the command language and the arithmetic they feed:
//! decimal digits, quantized distances and the eight fast directions.
//!
//! Several alphabets share physical keys on purpose. Which meaning a key has
//! is decided by the phase of the parser that reads it, never here.

use vstd::prelude::*;

verus! {

/// `v` clamped into the range of `u32`.
pub open spec fn clamp_u32(v: int) -> u32 {
    if v < 0 {
        0u32
    } else if v > u32::MAX as int {
        u32::MAX
    } else {
        v as u32
    }
}

/// The decimal value of `c` if it is one of the ten ASCII digits.
pub open spec fn digit_value(c: char) -> Option<u32> {
    if '0' <= c && c <= '9' {
        Some((c as u32 - '0' as u32) as u32)
    } else {
        None
    }
}

/// The number shown after the digit `c` is typed behind `num`: `num * 10`
/// plus the digit, held at `u32::MAX` once it no longer fits.
pub open spec fn pushed(num: u32, c: char) -> u32 {
    clamp_u32(num as int * 10 + digit_value(c).unwrap() as int)
}

/// The distance a quantized-distance key stands for.
pub open spec fn quantized_distance(c: char) -> Option<u32> {
    if c == 'q' {
        Some(5u32)
    } else if c == 'e' {
        Some(15u32)
    } else if c == 'r' {
        Some(25u32)
    } else if c == 't' {
        Some(50u32)
    } else if c == 'z' {
        Some(75u32)
    } else {
        None
    }
}

/// Reads one decimal digit.
pub fn to_digit(c: char) -> (r: Option<u32>)
    ensures
        r == digit_value(c),
{
    if '0' <= c && c <= '9' {
        Some(c as u32 - '0' as u32)
    } else {
        None
    }
}

/// Appends the decimal digit `digit` to `num`, saturating at `u32::MAX`.
pub fn push_num(num: u32, digit: char) -> (r: u32)
    requires
        digit_value(digit) is Some,
    ensures
        r == pushed(num, digit),
{
    let d: u32 = digit as u32 - '0' as u32;
    match num.checked_mul(10) {
        Some(tens) => tens.saturating_add(d),
        None => u32::MAX,
    }
}

pub const SHORT_5: char = 'q';

pub const SHORT_15: char = 'e';

pub const SHORT_25: char = 'r';

pub const SHORT_50: char = 't';

pub const SHORT_75: char = 'z';

/// The distance of a quantized-distance key, or `Err(())` for any other key.
pub fn short_distance(value: char) -> (r: Result<u32, ()>)
    ensures
        match r {
            Ok(d) => quantized_distance(value) == Some(d),
            Err(_) => quantized_distance(value) is None,
        },
{
    if value == SHORT_5 {
        Ok(5)
    } else if value == SHORT_15 {
        Ok(15)
    } else if value == SHORT_25 {
        Ok(25)
    } else if value == SHORT_50 {
        Ok(50)
    } else if value == SHORT_75 {
        Ok(75)
    } else {
        Err(())
    }
}

/// How a fast direction moves along one axis.
#[derive(Clone, Copy, Debug, PartialEq, Eq, Structural)]
pub enum FastDirectionType {
    Pos,
    Neg,
    Neutral,
}

impl FastDirectionType {
    /// The signed displacement along this axis for a distance of `dist`.
    pub open spec fn delta(self, dist: u32) -> int {
        match self {
            FastDirectionType::Pos => dist as int,
            FastDirectionType::Neg => -(dist as int),
            FastDirectionType::Neutral => 0,
        }
    }

    /// The signed displacement along this axis for a distance of `dist`.
    pub fn resolve(&self, dist: u32) -> (r: i64)
        ensures
            r == self.delta(dist),
    {
        match self {
            FastDirectionType::Pos => dist as i64,
            FastDirectionType::Neg => -(dist as i64),
            FastDirectionType::Neutral => 0,
        }
    }
}

/// `base` displaced by `delta`, held inside the range of `u32`.
pub open spec fn displaced(base: u32, delta: int) -> u32 {
    clamp_u32(base as int + delta)
}

/// Moves `base` by the signed `delta`, stopping at zero and at `u32::MAX`.
pub fn displace(base: u32, delta: i64) -> (r: u32)
    ensures
        r == displaced(base, delta as int),
{
    let moved: i128 = base as i128 + delta as i128;
    if moved < 0 {
        0
    } else if moved > u32::MAX as i128 {
        u32::MAX
    } else {
        moved as u32
    }
}

/// One of the eight compass directions, as a movement on each axis.
///
/// `horiz` is positive towards growing `x`, `vert` towards growing `y`.
#[derive(Clone, Copy, Debug, PartialEq, Eq, Structural)]
pub struct FastDirection {
    pub horiz: FastDirectionType,
    pub vert: FastDirectionType,
}

/// The direction a fast-direction key selects.
pub open spec fn fast_direction_of(c: char) -> Option<FastDirection> {
    if c == 'q' {
        Some(FastDirection { horiz: FastDirectionType::Neg, vert: FastDirectionType::Neg })
    } else if c == 'w' {
        Some(FastDirection { horiz: FastDirectionType::Neutral, vert: FastDirectionType::Neg })
    } else if c == 'e' {
        Some(FastDirection { horiz: FastDirectionType::Pos, vert: FastDirectionType::Neg })
    } else if c == 'd' {
        Some(FastDirection { horiz: FastDirectionType::Pos, vert: FastDirectionType::Neutral })
    } else if c == 'c' {
        Some(FastDirection { horiz: FastDirectionType::Pos, vert: FastDirectionType::Pos })
    } else if c == 'x' {
        Some(FastDirection { horiz: FastDirectionType::Neutral, vert: FastDirectionType::Pos })
    } else if c == 'y' {
        Some(FastDirection { horiz: FastDirectionType::Neg, vert: FastDirectionType::Pos })
    } else if c == 'a' {
        Some(FastDirection { horiz: FastDirectionType::Neg, vert: FastDirectionType::Neutral })
    } else {
        None
    }
}

impl FastDirection {
    /// A fast direction moves along at least one axis.
    pub open spec fn wf(self) -> bool {
        !(self.horiz is Neutral && self.vert is Neutral)
    }

    /// The key that selects this direction.
    pub open spec fn key(self) -> char {
        match self.horiz {
            FastDirectionType::Pos => match self.vert {
                FastDirectionType::Pos => 'c',
                FastDirectionType::Neg => 'e',
                FastDirectionType::Neutral => 'd',
            },
            FastDirectionType::Neg => match self.vert {
                FastDirectionType::Pos => 'y',
                FastDirectionType::Neg => 'q',
                FastDirectionType::Neutral => 'a',
            },
            FastDirectionType::Neutral => match self.vert {
                FastDirectionType::Pos => 'x',
                _ => 'w',
            },
        }
    }

    /// The point reached from `from` after moving `dist` in this direction.
    pub open spec fn target(self, dist: u32, from: (u32, u32)) -> (u32, u32) {
        (displaced(from.0, self.horiz.delta(dist)), displaced(from.1, self.vert.delta(dist)))
    }

    /// Reads a fast-direction key. Any other key is reported in the error
    /// message.
    pub fn try_from(value: char) -> (r: Result<FastDirection, String>)
        ensures
            match r {
                Ok(dir) => fast_direction_of(value) == Some(dir),
                Err(msg) => fast_direction_of(value) is None && msg@
                    == "Failed converting to FastDirection: "@.push(value),
            },
    {
        let mut horiz = FastDirectionType::Neutral;
        let mut vert = FastDirectionType::Neutral;
        if value == 'q' {
            horiz = FastDirectionType::Neg;
            vert = FastDirectionType::Neg;
        } else if value == 'w' {
            vert = FastDirectionType::Neg;
        } else if value == 'e' {
            horiz = FastDirectionType::Pos;
            vert = FastDirectionType::Neg;
        } else if value == 'd' {
            horiz = FastDirectionType::Pos;
        } else if value == 'c' {
            horiz = FastDirectionType::Pos;
            vert = FastDirectionType::Pos;
        } else if value == 'x' {
            vert = FastDirectionType::Pos;
        } else if value == 'y' {
            vert = FastDirectionType::Pos;
            horiz = FastDirectionType::Neg;
        } else if value == 'a' {
            horiz = FastDirectionType::Neg;
        } else {
            let mut msg = String::from_str("Failed converting to FastDirection: ");
            msg.push(value);
            return Err(msg);
        }
        Ok(FastDirection { horiz, vert })
    }

    /// The key that selects this direction.
    pub fn into(self) -> (r: char)
        requires
            self.wf(),
        ensures
            r == self.key(),
            fast_direction_of(r) == Some(self),
    {
        match self.horiz {
            FastDirectionType::Pos => match self.vert {
                FastDirectionType::Pos => 'c',
                FastDirectionType::Neg => 'e',
                FastDirectionType::Neutral => 'd',
            },
            FastDirectionType::Neg => match self.vert {
                FastDirectionType::Pos => 'y',
                FastDirectionType::Neg => 'q',
                FastDirectionType::Neutral => 'a',
            },
            FastDirectionType::Neutral => match self.vert {
                FastDirectionType::Pos => 'x',
                _ => 'w',
            },
        }
    }

    /// The point reached from `from` after moving `dist` in this direction,
    /// each coordinate held inside the range of `u32`.
    pub fn resolve(&self, dist: u32, from: (u32, u32)) -> (r: (u32, u32))
        ensures
            r == self.target(dist, from),
    {
        (displace(from.0, self.horiz.resolve(dist)), displace(from.1, self.vert.resolve(dist)))
    }
}

/// `String::push`: afterwards the string holds the characters it held before,
/// followed by `ch`.
pub assume_specification[ String::push ](s: &mut String, ch: char)
    ensures
        final(s)@ == old(s)@.push(ch),
;

} // verus!

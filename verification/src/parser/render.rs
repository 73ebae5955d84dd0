//! How a command in progress is written out: each state as the keys that
//! spell it.

use vstd::prelude::*;

use crate::parser::coords::{AbsCoord, CoordFSM, Direction, RelCoord, RelCoordPair};
use crate::parser::keys::FastDirection;
use crate::parser::CommandType;

verus! {

/// The character of the decimal digit `d`.
pub open spec fn digit_char(d: nat) -> char {
    if d == 0 {
        '0'
    } else if d == 1 {
        '1'
    } else if d == 2 {
        '2'
    } else if d == 3 {
        '3'
    } else if d == 4 {
        '4'
    } else if d == 5 {
        '5'
    } else if d == 6 {
        '6'
    } else if d == 7 {
        '7'
    } else if d == 8 {
        '8'
    } else {
        '9'
    }
}

/// The decimal numeral of `n`, without leading zeros.
pub open spec fn decimal(n: nat) -> Seq<char>
    decreases n,
{
    if n < 10 {
        seq![digit_char(n)]
    } else {
        decimal(n / 10).push(digit_char(n % 10))
    }
}

/// The decimal numeral of `n`, or nothing for zero.
pub open spec fn decimal_autohide(n: nat) -> Seq<char> {
    if n == 0 {
        Seq::empty()
    } else {
        decimal(n)
    }
}

fn digit_to_char(d: u32) -> (c: char)
    requires
        d < 10,
    ensures
        c == digit_char(d as nat),
{
    if d == 0 {
        '0'
    } else if d == 1 {
        '1'
    } else if d == 2 {
        '2'
    } else if d == 3 {
        '3'
    } else if d == 4 {
        '4'
    } else if d == 5 {
        '5'
    } else if d == 6 {
        '6'
    } else if d == 7 {
        '7'
    } else if d == 8 {
        '8'
    } else {
        '9'
    }
}

/// Appends the decimal numeral of `n` to `s`.
pub fn push_decimal(s: &mut String, n: u32)
    ensures
        final(s)@ == old(s)@ + decimal(n as nat),
    decreases n,
{
    if n >= 10 {
        push_decimal(s, n / 10);
    }
    s.push(digit_to_char(n % 10));
}

/// Appends the decimal numeral of `n` to `s`, or nothing if `n` is zero.
pub fn push_decimal_autohide(s: &mut String, n: u32)
    ensures
        final(s)@ == old(s)@ + decimal_autohide(n as nat),
{
    if n != 0 {
        push_decimal(s, n);
    }
}

/// The decimal numeral of `n`, or the empty string for zero.
pub fn to_string_autohide(n: u32) -> (r: String)
    ensures
        r@ == decimal_autohide(n as nat),
{
    let mut ret = String::new();
    push_decimal_autohide(&mut ret, n);
    ret
}

impl CommandType {
    /// The leader key of this kind of command; a move has none.
    pub open spec fn rendered(self) -> Seq<char> {
        match self {
            CommandType::Move => Seq::empty(),
            CommandType::Line => seq!['l'],
            CommandType::Rectangle => seq!['r'],
            CommandType::Text => seq!['t'],
            CommandType::Circle(_) => seq!['c'],
        }
    }

    /// The leader key of this kind of command; a move has none.
    pub fn to_string(&self) -> (r: String)
        ensures
            r@ == self.rendered(),
    {
        let mut ret = String::new();
        match self {
            CommandType::Move => {},
            CommandType::Line => ret.push('l'),
            CommandType::Rectangle => ret.push('r'),
            CommandType::Text => ret.push('t'),
            CommandType::Circle(_) => ret.push('c'),
        }
        ret
    }
}

impl Direction {
    /// The key of this direction, as a string.
    pub fn to_string(&self) -> (r: String)
        ensures
            r@ == seq![self.key()],
    {
        let mut ret = String::new();
        ret.push(self.to_char());
        ret
    }
}

impl RelCoordPair {
    /// The distance in decimal, then the direction key.
    pub open spec fn rendered(self) -> Seq<char> {
        decimal(self.0 as nat).push(self.1.key())
    }

    /// Appends this pair to `s`.
    pub fn render_into(&self, s: &mut String)
        ensures
            final(s)@ == old(s)@ + self.rendered(),
    {
        push_decimal(s, self.0);
        s.push(self.1.to_char());
    }

    /// The distance in decimal, then the direction key.
    pub fn to_string(&self) -> (r: String)
        ensures
            r@ == self.rendered(),
    {
        let mut ret = String::new();
        self.render_into(&mut ret);
        ret
    }
}

impl AbsCoord {
    /// `a`, the first number, and once it was begun `;` and the second.
    pub open spec fn rendered(self) -> Seq<char> {
        match self {
            AbsCoord::EnteringFirstNum(num) => seq!['a'] + decimal(num as nat),
            AbsCoord::EnteringSecondNum(num, num2) => seq!['a'] + decimal(num as nat) + seq![';']
                + decimal(num2 as nat),
        }
    }

    /// `a`, the first number, and once it was begun `;` and the second.
    pub fn to_string(&self) -> (r: String)
        ensures
            r@ == self.rendered(),
    {
        let mut ret = String::new();
        ret.push('a');
        match self {
            AbsCoord::EnteringFirstNum(num) => {
                push_decimal(&mut ret, *num);
            },
            AbsCoord::EnteringSecondNum(num, num2) => {
                push_decimal(&mut ret, *num);
                ret.push(';');
                push_decimal(&mut ret, *num2);
            },
        }
        ret
    }
}

impl RelCoord {
    /// The keys that spell this phase. A number that is still zero is left
    /// out while it is being typed.
    pub open spec fn rendered(self) -> Seq<char> {
        match self {
            RelCoord::EnteringFirstNum(num) => decimal_autohide(num as nat),
            RelCoord::FirstNumAndDirection(rcp) => rcp.rendered(),
            RelCoord::EnteringSecondNum(rcp, num) => rcp.rendered() + seq![';']
                + decimal_autohide(num as nat),
            RelCoord::BothNums(rcp, rcp2) => rcp.rendered() + seq![';'] + rcp2.rendered(),
            RelCoord::Direction(dir) => seq![dir.key()],
            RelCoord::EnteringDistance(dir, dist) => seq![dir.key()] + decimal(dist as nat),
        }
    }

    /// The keys that spell this phase.
    pub fn to_string(&self) -> (r: String)
        requires
            self.wf(),
        ensures
            r@ == self.rendered(),
    {
        let mut ret = String::new();
        match self {
            RelCoord::EnteringFirstNum(num) => {
                push_decimal_autohide(&mut ret, *num);
            },
            RelCoord::FirstNumAndDirection(rcp) => {
                rcp.render_into(&mut ret);
            },
            RelCoord::EnteringSecondNum(rcp, num) => {
                rcp.render_into(&mut ret);
                ret.push(';');
                push_decimal_autohide(&mut ret, *num);
            },
            RelCoord::BothNums(rcp, rcp2) => {
                rcp.render_into(&mut ret);
                ret.push(';');
                rcp2.render_into(&mut ret);
            },
            RelCoord::Direction(dir) => {
                ret.push(FastDirection::into(*dir));
            },
            RelCoord::EnteringDistance(dir, dist) => {
                ret.push(FastDirection::into(*dir));
                push_decimal(&mut ret, *dist);
            },
        }
        ret
    }
}

impl CoordFSM {
    /// The keys that spell this phase.
    pub open spec fn rendered(self) -> Seq<char> {
        match self {
            CoordFSM::Abs(c) => c.rendered(),
            CoordFSM::Rel(c) => c.rendered(),
        }
    }

    /// The keys that spell this phase.
    pub fn to_string(&self) -> (r: String)
        requires
            self.wf(),
        ensures
            r@ == self.rendered(),
    {
        match self {
            CoordFSM::Abs(c) => c.to_string(),
            CoordFSM::Rel(c) => c.to_string(),
        }
    }
}

} // verus!

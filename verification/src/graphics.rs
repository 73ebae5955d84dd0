//! The shapes a command draws, as plain values: how each is built from a
//! finished command, where its handle lies, and how it moves.

use vstd::prelude::*;

use std::collections::hash_map::DefaultHasher;
use std::hash::{Hash, Hasher};

use vstd::utf8::encode_utf8;

use crate::components::SelectableOverlayData;
use crate::parser::keys::{clamp_u32, displaced};
use crate::parser::render::{decimal, push_decimal};
use crate::parser::{Command, CommandType, CommandView, Coords, CreateComFSM};

verus! {

/// Four 32-bit numbers side by side in 128 bits, `n1` highest.
pub open spec fn packed(n1: u32, n2: u32, n3: u32, n4: u32) -> int {
    n1 as int * 0x1_0000_0000_0000_0000_0000_0000 + n2 as int * 0x1_0000_0000_0000_0000 + n3 as int
        * 0x1_0000_0000 + n4 as int
}

/// Packs four numbers into one key. Different numbers give different keys.
pub fn key_from_four(n1: u32, n2: u32, n3: u32, n4: u32) -> (r: u128)
    ensures
        r == packed(n1, n2, n3, n4),
{
    let a: u128 = n1 as u128;
    let b: u128 = n2 as u128;
    let c: u128 = n3 as u128;
    let d: u128 = n4 as u128;
    assert((a << 96) == a * 0x1_0000_0000_0000_0000_0000_0000 && (b << 64) == b
        * 0x1_0000_0000_0000_0000 && (c << 32) == c * 0x1_0000_0000) by (bit_vector)
        requires
            a <= 0xffff_ffff,
            b <= 0xffff_ffff,
            c <= 0xffff_ffff,
    ;
    (a << 96) + (b << 64) + (c << 32) + d
}

/// Keys of different quadruples differ.
pub proof fn lemma_packed_is_injective(a: (u32, u32, u32, u32), b: (u32, u32, u32, u32))
    requires
        packed(a.0, a.1, a.2, a.3) == packed(b.0, b.1, b.2, b.3),
    ensures
        a == b,
{
    let high = |q: (u32, u32, u32, u32)| q.0 as int * 0x1_0000_0000 + q.1 as int;
    let upper = |q: (u32, u32, u32, u32)| high(q) * 0x1_0000_0000 + q.2 as int;
    assert(packed(a.0, a.1, a.2, a.3) == upper(a) * 0x1_0000_0000 + a.3 as int);
    assert(packed(b.0, b.1, b.2, b.3) == upper(b) * 0x1_0000_0000 + b.3 as int);
    lemma_digits_are_unique(upper(a), a.3 as int, upper(b), b.3 as int);
    lemma_digits_are_unique(high(a), a.2 as int, high(b), b.2 as int);
    lemma_digits_are_unique(a.0 as int, a.1 as int, b.0 as int, b.1 as int);
}

/// A number has one last digit to the base 2^32, and one rest.
proof fn lemma_digits_are_unique(rest_a: int, last_a: int, rest_b: int, last_b: int)
    requires
        0 <= last_a < 0x1_0000_0000,
        0 <= last_b < 0x1_0000_0000,
        rest_a * 0x1_0000_0000 + last_a == rest_b * 0x1_0000_0000 + last_b,
    ensures
        rest_a == rest_b,
        last_a == last_b,
{
}

/// The number `c` as a percentage: its decimal numeral and a percent sign.
pub open spec fn css_percent(c: u32) -> Seq<char> {
    decimal(c as nat).push('%')
}

/// Writes `c` as a percentage.
pub fn format_css(c: u32) -> (r: String)
    ensures
        r@ == css_percent(c),
{
    let mut ret = String::new();
    push_decimal(&mut ret, c);
    ret.push('%');
    ret
}

/// The colour of a shape: the one the command names, or red.
pub open spec fn color_or_red(color: Option<Seq<char>>) -> Seq<char> {
    match color {
        Some(name) => name,
        None => "red"@,
    }
}

fn color_of(command: &Command) -> (r: String)
    ensures
        r@ == color_or_red(command@.color),
{
    match command.color() {
        Some(name) => name,
        None => String::from_str("red"),
    }
}

/// `base` moved by `by`, held at `u32::MAX`.
pub open spec fn shifted(base: u32, by: u32) -> u32 {
    displaced(base, by as int)
}

/// The point `from` moved as `coords` asks: shifted by an absolute
/// coordinate, displaced by a relative one.
pub open spec fn moved_point(from: (u32, u32), coords: Coords) -> (u32, u32) {
    match coords {
        Coords::AbsCoord(x, y) => (shifted(from.0, x), shifted(from.1, y)),
        Coords::RelCoord(fcp) => fcp.resolved(from),
    }
}

/// Moves the point `from` as `coords` asks.
pub fn move_point(from: (u32, u32), coords: &Coords) -> (r: (u32, u32))
    ensures
        r == moved_point(from, *coords),
{
    match coords {
        Coords::AbsCoord(x, y) => (from.0.saturating_add(*x), from.1.saturating_add(*y)),
        Coords::RelCoord(fcp) => fcp.resolve_with_offset(from),
    }
}

/// A shape that can be copied so that the copy shares nothing with it.
pub trait TrueSignalClone: Sized {
    fn deep_clone(&self) -> Self;
}

/// A straight line between two points.
#[derive(Debug, PartialEq, Eq)]
pub struct Line {
    pub x1: u32,
    pub y1: u32,
    pub x2: u32,
    pub y2: u32,
    pub color: String,
}

impl Clone for Line {
    fn clone(&self) -> (r: Line)
        ensures
            r == *self,
    {
        Line { x1: self.x1, y1: self.y1, x2: self.x2, y2: self.y2, color: self.color.clone() }
    }
}

impl TrueSignalClone for Line {
    fn deep_clone(&self) -> (r: Line)
        ensures
            r == *self,
    {
        self.clone()
    }
}

impl Line {
    /// The handle of the line: the box spanned by its two ends.
    pub open spec fn overlay(self) -> SelectableOverlayData {
        SelectableOverlayData {
            top: if self.y1 > self.y2 {
                self.y2
            } else {
                self.y1
            },
            left: if self.x1 > self.x2 {
                self.x2
            } else {
                self.x1
            },
            end_x: if self.x1 > self.x2 {
                self.x1
            } else {
                self.x2
            },
            end_y: if self.y1 > self.y2 {
                self.y1
            } else {
                self.y2
            },
            selected: false,
        }
    }

    /// The line with both ends moved as `coords` asks.
    pub open spec fn moved(self, coords: Coords) -> Line {
        let p1 = moved_point((self.x1, self.y1), coords);
        let p2 = moved_point((self.x2, self.y2), coords);
        Line { x1: p1.0, y1: p1.1, x2: p2.0, y2: p2.1, color: self.color }
    }

    /// Whether this is the line that the command `com` draws with the
    /// reference point at `cursor`: from the start point of the command to
    /// its coordinate, in its colour.
    pub open spec fn draws(self, com: CommandView, cursor: (u32, u32)) -> bool {
        &&& com.ctype is Line
        &&& (self.x1, self.y1) == com.start(cursor)
        &&& (self.x2, self.y2) == com.coords.resolved(cursor)
        &&& self.color@ == color_or_red(com.color)
    }

    /// The line in words: `Line: x1=`, the number, and so on for `y1`, `x2`
    /// and `y2`, with `, ` between them.
    pub open spec fn described(self) -> Seq<char> {
        "Line: x1="@ + decimal(self.x1 as nat) + ", y1="@ + decimal(self.y1 as nat) + ", x2="@
            + decimal(self.x2 as nat) + ", y2="@ + decimal(self.y2 as nat)
    }

    /// The line in words.
    pub fn to_string(&self) -> (r: String)
        ensures
            r@ == self.described(),
    {
        let mut ret = String::from_str("Line: x1=");
        push_decimal(&mut ret, self.x1);
        ret.append(", y1=");
        push_decimal(&mut ret, self.y1);
        ret.append(", x2=");
        push_decimal(&mut ret, self.x2);
        ret.append(", y2=");
        push_decimal(&mut ret, self.y2);
        ret
    }

    /// The four coordinates as percentages, in the order `x1`, `y1`, `x2`,
    /// `y2`.
    pub fn css_coords(&self) -> (r: (String, String, String, String))
        ensures
            r.0@ == css_percent(self.x1),
            r.1@ == css_percent(self.y1),
            r.2@ == css_percent(self.x2),
            r.3@ == css_percent(self.y2),
    {
        (format_css(self.x1), format_css(self.y1), format_css(self.x2), format_css(self.y2))
    }

    /// A red line from `(pair.0, pair.1)` to `(pair.2, pair.3)`.
    pub fn from(pair: (u32, u32, u32, u32)) -> (r: Line)
        ensures
            r.x1 == pair.0,
            r.y1 == pair.1,
            r.x2 == pair.2,
            r.y2 == pair.3,
            r.color@ == "red"@,
    {
        Line { x1: pair.0, y1: pair.1, x2: pair.2, y2: pair.3, color: String::from_str("red") }
    }

    /// The line a command draws: from its start point to its coordinate,
    /// both resolved against `cursor`. A command of another kind is no line,
    /// and its kind is handed back.
    pub fn try_from(value: Command, cursor: (u32, u32)) -> (r: Result<Line, CommandType>)
        ensures
            match r {
                Ok(line) => line.draws(value@, cursor),
                Err(other) => !(value@.ctype is Line) && other == value@.ctype,
            },
    {
        if let CommandType::Line = value.ctype() {
            let (x, y) = value.start_coords(cursor);
            let (x2, y2) = value.coords().resolve(cursor);
            let color = color_of(&value);
            Ok(Line { x1: x, y1: y, x2, y2, color })
        } else {
            Err(value.ctype())
        }
    }

    /// The key of the line: its four coordinates, packed.
    pub fn key(&self) -> (r: u128)
        ensures
            r == packed(self.x1, self.y1, self.x2, self.y2),
    {
        key_from_four(self.x1, self.y1, self.x2, self.y2)
    }

    /// The handle of the line.
    pub fn get_overlay_dims(&self) -> (r: SelectableOverlayData)
        ensures
            r == self.overlay(),
    {
        let mut x1: u32 = self.x1;
        let mut x2: u32 = self.x2;
        let mut y1: u32 = self.y1;
        let mut y2: u32 = self.y2;
        if x1 > x2 {
            x1 = x2;
            x2 = self.x1;
        }
        if y1 > y2 {
            y1 = y2;
            y2 = self.y1;
        }
        SelectableOverlayData::new(y1, x1, x2, y2)
    }

    /// Moves both ends as `coords` asks.
    pub fn move_form(&mut self, coords: &Coords)
        ensures
            *final(self) == old(self).moved(*coords),
    {
        let p1 = move_point((self.x1, self.y1), coords);
        let p2 = move_point((self.x2, self.y2), coords);
        self.x1 = p1.0;
        self.y1 = p1.1;
        self.x2 = p2.0;
        self.y2 = p2.1;
    }
}

/// The distance between `a` and `b`.
pub open spec fn distance(a: u32, b: u32) -> u32 {
    if a > b {
        (a - b) as u32
    } else {
        (b - a) as u32
    }
}

/// The smaller of `a` and `b`.
pub open spec fn lesser(a: u32, b: u32) -> u32 {
    if a > b {
        b
    } else {
        a
    }
}

/// An axis-aligned rectangle: a corner, and its extent from there towards
/// growing `x` and `y`.
#[derive(Debug, PartialEq, Eq)]
pub struct Rect {
    pub x: u32,
    pub y: u32,
    pub width: u32,
    pub height: u32,
    pub rx: u32,
    pub ry: u32,
    pub border_color: String,
    pub inner_color: String,
}

impl Clone for Rect {
    fn clone(&self) -> (r: Rect)
        ensures
            r == *self,
    {
        Rect {
            x: self.x,
            y: self.y,
            width: self.width,
            height: self.height,
            rx: self.rx,
            ry: self.ry,
            border_color: self.border_color.clone(),
            inner_color: self.inner_color.clone(),
        }
    }
}

impl TrueSignalClone for Rect {
    fn deep_clone(&self) -> (r: Rect)
        ensures
            r == *self,
    {
        self.clone()
    }
}

impl Rect {
    /// The handle of the rectangle: the rectangle itself.
    pub open spec fn overlay(self) -> SelectableOverlayData {
        SelectableOverlayData {
            top: self.y,
            left: self.x,
            end_x: shifted(self.x, self.width),
            end_y: shifted(self.y, self.height),
            selected: false,
        }
    }

    /// The rectangle with its corner moved as `coords` asks.
    pub open spec fn moved(self, coords: Coords) -> Rect {
        let p = moved_point((self.x, self.y), coords);
        Rect { x: p.0, y: p.1, ..self }
    }

    /// The four sides, each from its end nearer the corner to the other:
    /// the side through the corner along `x`, the side opposite it, the side
    /// through the corner along `y`, and the side opposite that.
    pub open spec fn sides(self) -> [((u32, u32), (u32, u32)); 4] {
        let x2 = shifted(self.x, self.width);
        let y2 = shifted(self.y, self.height);
        [
            ((self.x, self.y), (x2, self.y)),
            ((self.x, y2), (x2, y2)),
            ((self.x, self.y), (self.x, y2)),
            ((x2, self.y), (x2, y2)),
        ]
    }

    /// Whether this is the rectangle that the command `com` draws with the
    /// reference point at `cursor`: the one spanned by the start point of
    /// the command and its coordinate, whichever way round they lie, with
    /// square corners, no border colour, and filled in the command's colour.
    pub open spec fn draws(self, com: CommandView, cursor: (u32, u32)) -> bool {
        let start = com.start(cursor);
        let end = com.coords.resolved(cursor);
        &&& com.ctype is Rectangle
        &&& self.x == lesser(start.0, end.0)
        &&& self.y == lesser(start.1, end.1)
        &&& self.width == distance(start.0, end.0)
        &&& self.height == distance(start.1, end.1)
        &&& self.rx == 0
        &&& self.ry == 0
        &&& self.border_color@ == Seq::<char>::empty()
        &&& self.inner_color@ == color_or_red(com.color)
    }

    /// The rectangle a command draws: the one spanned by its start point and
    /// its coordinate, both resolved against `cursor`, whichever way round
    /// they lie. A command of another kind is no rectangle, and its kind is
    /// handed back.
    pub fn try_from(command: Command, cursor: (u32, u32)) -> (r: Result<Rect, CommandType>)
        ensures
            match r {
                Ok(rect) => rect.draws(command@, cursor),
                Err(other) => !(command@.ctype is Rectangle) && other == command@.ctype,
            },
    {
        if let CommandType::Rectangle = command.ctype() {
            let color = color_of(&command);
            let (mut x, mut y) = command.start_coords(cursor);
            let (x2, y2) = command.coords().resolve(cursor);
            let width: u32 = if x2 < x {
                let w: u32 = x - x2;
                x = x2;
                w
            } else {
                x2 - x
            };
            let height: u32 = if y2 < y {
                let h: u32 = y - y2;
                y = y2;
                h
            } else {
                y2 - y
            };
            Ok(
                Rect {
                    x,
                    y,
                    width,
                    height,
                    rx: 0,
                    ry: 0,
                    border_color: String::new(),
                    inner_color: color,
                },
            )
        } else {
            Err(command.ctype())
        }
    }

    /// The key of the rectangle: its corner and extent, packed.
    pub fn key(&self) -> (r: u128)
        ensures
            r == packed(self.x, self.y, self.width, self.height),
    {
        key_from_four(self.x, self.y, self.width, self.height)
    }

    /// The handle of the rectangle.
    pub fn get_overlay_dims(&self) -> (r: SelectableOverlayData)
        ensures
            r == self.overlay(),
    {
        SelectableOverlayData::new(
            self.y,
            self.x,
            self.x.saturating_add(self.width),
            self.y.saturating_add(self.height),
        )
    }

    /// Moves the corner as `coords` asks; the extent stays.
    pub fn move_form(&mut self, coords: &Coords)
        ensures
            *final(self) == old(self).moved(*coords),
    {
        let p = move_point((self.x, self.y), coords);
        self.x = p.0;
        self.y = p.1;
    }

    /// The four sides of the rectangle, as pairs of end points.
    pub fn edges(&self) -> (r: [((u32, u32), (u32, u32)); 4])
        ensures
            r == self.sides(),
    {
        let x: u32 = self.x;
        let y: u32 = self.y;
        let x2: u32 = self.x.saturating_add(self.width);
        let y2: u32 = self.y.saturating_add(self.height);
        let r = [((x, y), (x2, y)), ((x, y2), (x2, y2)), ((x, y), (x, y2)), ((x2, y), (x2, y2))];
        assert(r@ =~= self.sides()@);
        r
    }
}

/// A piece of text at a point.
#[derive(Debug, PartialEq, Eq)]
pub struct Text {
    pub x: u32,
    pub y: u32,
    pub text: String,
    pub font_size: u32,
    pub color: String,
}

impl Clone for Text {
    fn clone(&self) -> (r: Text)
        ensures
            r == *self,
    {
        Text {
            x: self.x,
            y: self.y,
            text: self.text.clone(),
            font_size: self.font_size,
            color: self.color.clone(),
        }
    }
}

impl TrueSignalClone for Text {
    fn deep_clone(&self) -> (r: Text)
        ensures
            r == *self,
    {
        self.clone()
    }
}

/// The length of a string in bytes, as the string itself reports it.
pub open spec fn byte_len(s: Seq<char>) -> usize {
    encode_utf8(s).len() as usize
}

/// `Hash::hash` of a `u128` into a `DefaultHasher`. Nothing is stated of the
/// state it leaves.
#[verifier::external_body]
fn hash_u128(state: &mut DefaultHasher, value: u128) {
    value.hash(state);
}

/// `Hash::hash` of a `String` into a `DefaultHasher`. Nothing is stated of
/// the state it leaves.
#[verifier::external_body]
fn hash_string(state: &mut DefaultHasher, value: &String) {
    value.hash(state);
}

/// `Hasher::write_u128` on a `DefaultHasher`. Nothing is stated of the state
/// it leaves.
#[verifier::external_body]
fn write_u128(state: &mut DefaultHasher, value: u128) {
    state.write_u128(value);
}

impl Text {
    /// The handle of the text. It begins at the point, with `x` as its top
    /// and `y` as its left, and reaches one font size down and one font size
    /// for each byte of the text across.
    pub open spec fn overlay(self) -> SelectableOverlayData {
        SelectableOverlayData {
            top: self.x,
            left: self.y,
            end_x: clamp_u32(self.x + self.font_size * byte_len(self.text@)),
            end_y: shifted(self.y, self.font_size),
            selected: false,
        }
    }

    /// The text with its point moved as `coords` asks.
    pub open spec fn moved(self, coords: Coords) -> Text {
        let p = moved_point((self.x, self.y), coords);
        Text { x: p.0, y: p.1, ..self }
    }

    /// Whether this is the text that the command `com` draws with the
    /// reference point at `cursor` when its wording is `text`: at the
    /// command's coordinate, in font size one and in the command's colour.
    pub open spec fn draws(self, com: CommandView, cursor: (u32, u32), text: String) -> bool {
        &&& com.ctype is Text
        &&& (self.x, self.y) == com.coords.resolved(cursor)
        &&& self.text == text
        &&& self.font_size == 1
        &&& self.color@ == color_or_red(com.color)
    }

    /// The text a command draws: `text` at the command's coordinate,
    /// resolved against `cursor`, in font size one. A command of another
    /// kind is no text, and its kind is handed back.
    pub fn try_from(command: Command, cursor: (u32, u32), text: String) -> (r: Result<
        Text,
        CommandType,
    >)
        ensures
            match r {
                Ok(t) => t.draws(command@, cursor, text),
                Err(other) => !(command@.ctype is Text) && other == command@.ctype,
            },
    {
        match command.ctype() {
            CommandType::Text => {
                let (x, y) = command.coords().resolve(cursor);
                let color = color_of(&command);
                Ok(Text { x, y, text, font_size: 1, color })
            },
            other => Err(other),
        }
    }

    /// The key of the text: a hash of its point and its characters. Equal
    /// texts at the same point have no two keys within one program; nothing
    /// more is known of the number.
    pub fn key(&self) -> (r: u128)
        ensures
            r <= u64::MAX,
    {
        let mut hasher = DefaultHasher::new();
        let x: u128 = self.x as u128;
        let y: u128 = self.y as u128;
        assert((x << 32) <= 0xffff_ffff_0000_0000u128) by (bit_vector)
            requires
                x <= 0xffff_ffff,
        ;
        hash_u128(&mut hasher, (x << 32) + y);
        hash_string(&mut hasher, &self.text);
        hasher.finish() as u128
    }

    /// The handle of the text.
    pub fn get_overlay_dims(&self) -> (r: SelectableOverlayData)
        ensures
            r == self.overlay(),
    {
        let len: u128 = self.text.as_str().len() as u128;
        let size: u128 = self.font_size as u128;
        assert(size * len <= 0xffff_ffff * 0xffff_ffff_ffff_ffff) by (nonlinear_arith)
            requires
                0 <= size <= 0xffff_ffff,
                0 <= len <= 0xffff_ffff_ffff_ffff,
        ;
        let reach: u128 = self.x as u128 + size * len;
        let end_x: u32 = if reach > u32::MAX as u128 {
            u32::MAX
        } else {
            reach as u32
        };
        SelectableOverlayData::new(self.x, self.y, end_x, self.y.saturating_add(self.font_size))
    }

    /// Moves the point as `coords` asks.
    pub fn move_form(&mut self, coords: &Coords)
        ensures
            *final(self) == old(self).moved(*coords),
    {
        let p = move_point((self.x, self.y), coords);
        self.x = p.0;
        self.y = p.1;
    }
}

/// A circle around a centre.
#[derive(Debug, PartialEq, Eq)]
pub struct Circle {
    pub radius: u32,
    pub x: u32,
    pub y: u32,
    pub color: String,
}

impl Clone for Circle {
    fn clone(&self) -> (r: Circle)
        ensures
            r == *self,
    {
        Circle { radius: self.radius, x: self.x, y: self.y, color: self.color.clone() }
    }
}

impl TrueSignalClone for Circle {
    fn deep_clone(&self) -> (r: Circle)
        ensures
            r == *self,
    {
        self.clone()
    }
}

impl Circle {
    /// The handle of the circle. Its top is `x` less the radius and its left
    /// `y` less the radius, neither below zero; it ends two radii behind the
    /// centre on each axis.
    pub open spec fn overlay(self) -> SelectableOverlayData {
        SelectableOverlayData {
            top: displaced(self.x, -(self.radius as int)),
            left: displaced(self.y, -(self.radius as int)),
            end_x: displaced(self.x, 2 * self.radius),
            end_y: displaced(self.y, 2 * self.radius),
            selected: false,
        }
    }

    /// The circle with its centre moved as `coords` asks.
    pub open spec fn moved(self, coords: Coords) -> Circle {
        let p = moved_point((self.x, self.y), coords);
        Circle { x: p.0, y: p.1, ..self }
    }

    /// Whether this is the circle that the command `com` draws with the
    /// reference point at `cursor`: of the command's radius, around its
    /// coordinate, in its colour.
    pub open spec fn draws(self, com: CommandView, cursor: (u32, u32)) -> bool {
        &&& com.ctype == CommandType::Circle(self.radius)
        &&& (self.x, self.y) == com.coords.resolved(cursor)
        &&& self.color@ == color_or_red(com.color)
    }

    /// A red circle of the given radius around `(x, y)`.
    pub fn new(radius: u32, x: u32, y: u32) -> (r: Circle)
        ensures
            r.radius == radius,
            r.x == x,
            r.y == y,
            r.color@ == "red"@,
    {
        Circle { radius, x, y, color: String::from_str("red") }
    }

    /// The circle a command draws: of the command's radius, around its
    /// coordinate resolved against `cursor`. A command of another kind is no
    /// circle, and its kind is handed back.
    pub fn try_from(com: Command, cursor: (u32, u32)) -> (r: Result<Circle, CommandType>)
        ensures
            match r {
                Ok(circle) => circle.draws(com@, cursor),
                Err(other) => !(com@.ctype is Circle) && other == com@.ctype,
            },
    {
        match com.ctype() {
            CommandType::Circle(rad) => {
                let (x, y) = com.coords().resolve(cursor);
                let color = color_of(&com);
                Ok(Circle { radius: rad, x, y, color })
            },
            other => Err(other),
        }
    }

    /// The key of the circle: its radius.
    pub fn key(&self) -> (r: u128)
        ensures
            r == self.radius,
    {
        self.radius as u128
    }

    /// The handle of the circle.
    pub fn get_overlay_dims(&self) -> (r: SelectableOverlayData)
        ensures
            r == self.overlay(),
    {
        let top: u32 = self.x.saturating_sub(self.radius);
        let left: u32 = self.y.saturating_sub(self.radius);
        let across: u32 = self.radius.saturating_add(self.radius);
        SelectableOverlayData::new(
            top,
            left,
            self.x.saturating_add(across),
            self.y.saturating_add(across),
        )
    }

    /// Moves the centre as `coords` asks.
    pub fn move_form(&mut self, coords: &Coords)
        ensures
            *final(self) == old(self).moved(*coords),
    {
        let p = move_point((self.x, self.y), coords);
        self.x = p.0;
        self.y = p.1;
    }
}

/// The smallest of the first `upto` numbers of `vs` (of the first, if
/// `upto` is less than two).
pub open spec fn least(vs: Seq<u32>, upto: int) -> u32
    decreases upto,
{
    if upto <= 1 {
        vs[0]
    } else {
        lesser(least(vs, upto - 1), vs[upto - 1])
    }
}

/// The largest of the first `upto` numbers of `vs` (the first, if `upto` is
/// less than two).
pub open spec fn greatest(vs: Seq<u32>, upto: int) -> u32
    decreases upto,
{
    if upto <= 1 {
        vs[0]
    } else {
        let before = greatest(vs, upto - 1);
        if vs[upto - 1] > before {
            vs[upto - 1]
        } else {
            before
        }
    }
}

/// `least` is a member of what it ranges over and no larger than any of
/// them; `greatest` is a member and no smaller than any.
pub proof fn lemma_least_and_greatest(vs: Seq<u32>, upto: int)
    requires
        1 <= upto <= vs.len(),
    ensures
        exists|i: int| 0 <= i < upto && vs[i] == least(vs, upto),
        forall|i: int| 0 <= i < upto ==> least(vs, upto) <= vs[i],
        exists|i: int| 0 <= i < upto && vs[i] == greatest(vs, upto),
        forall|i: int| 0 <= i < upto ==> greatest(vs, upto) >= vs[i],
    decreases upto,
{
    if upto > 1 {
        lemma_least_and_greatest(vs, upto - 1);
        let i = choose|i: int| 0 <= i < upto - 1 && vs[i] == least(vs, upto - 1);
        let j = choose|j: int| 0 <= j < upto - 1 && vs[j] == greatest(vs, upto - 1);
        if least(vs, upto) == vs[upto - 1] {
            assert(0 <= upto - 1 < upto && vs[upto - 1] == least(vs, upto));
        } else {
            assert(0 <= i < upto && vs[i] == least(vs, upto));
        }
        if greatest(vs, upto) == vs[upto - 1] {
            assert(0 <= upto - 1 < upto && vs[upto - 1] == greatest(vs, upto));
        } else {
            assert(0 <= j < upto && vs[j] == greatest(vs, upto));
        }
    } else {
        assert(0 <= 0 < upto && vs[0] == least(vs, upto));
        assert(0 <= 0 < upto && vs[0] == greatest(vs, upto));
    }
}

/// Any shape.
#[derive(Debug, PartialEq, Eq)]
pub enum Form {
    Line(Line),
    Rect(Rect),
    Text(Text),
    Circle(Circle),
    Group(Group),
}

/// Shapes that are moved and copied together.
#[derive(Debug, PartialEq, Eq)]
pub struct Group {
    pub forms: Vec<Form>,
}

/// What a [`Form`] holds: a group is the sequence of its members.
pub enum FormView {
    Line(Line),
    Rect(Rect),
    Text(Text),
    Circle(Circle),
    Group(Seq<FormView>),
}

impl Form {
    pub open spec fn view(self) -> FormView
        decreases self,
    {
        match self {
            Form::Line(line) => FormView::Line(line),
            Form::Rect(rect) => FormView::Rect(rect),
            Form::Text(text) => FormView::Text(text),
            Form::Circle(circle) => FormView::Circle(circle),
            Form::Group(group) => FormView::Group(Form::views(group.forms@, group.forms@.len() as int)),
        }
    }

    /// The views of the first `upto` of `forms`.
    pub open spec fn views(forms: Seq<Form>, upto: int) -> Seq<FormView>
        decreases forms, upto,
    {
        if upto <= 0 || upto > forms.len() {
            Seq::empty()
        } else {
            Form::views(forms, upto - 1).push(forms[upto - 1].view())
        }
    }

    /// `views` goes member by member.
    pub proof fn lemma_views(forms: Seq<Form>, upto: int)
        requires
            0 <= upto <= forms.len(),
        ensures
            Form::views(forms, upto).len() == upto,
            forall|i: int| 0 <= i < upto ==> (#[trigger] Form::views(forms, upto)[i]) == forms[i]@,
        decreases upto,
    {
        if upto > 0 {
            Form::lemma_views(forms, upto - 1);
        }
    }
}

impl Group {
    /// The views of the members, in order.
    pub open spec fn view(self) -> Seq<FormView> {
        Form::views(self.forms@, self.forms@.len() as int)
    }
}

impl FormView {
    /// The handle of the shape.
    pub open spec fn overlay(self) -> SelectableOverlayData
        decreases self,
    {
        match self {
            FormView::Line(line) => line.overlay(),
            FormView::Rect(rect) => rect.overlay(),
            FormView::Text(text) => text.overlay(),
            FormView::Circle(circle) => circle.overlay(),
            FormView::Group(forms) => FormView::span(
                FormView::overlays(forms, forms.len() as int),
            ),
        }
    }

    /// The handles of the first `upto` of `forms`.
    pub open spec fn overlays(forms: Seq<FormView>, upto: int) -> Seq<SelectableOverlayData>
        decreases forms, upto,
    {
        if upto <= 0 || upto > forms.len() {
            Seq::empty()
        } else {
            FormView::overlays(forms, upto - 1).push(forms[upto - 1].overlay())
        }
    }

    /// The handle of a group whose members have the handles `handles`. It
    /// begins at the least top and the least left of the members and ends at
    /// their greatest ends; without members it is the box from `(0, 0)` to
    /// `(100, 100)`.
    pub open spec fn span(handles: Seq<SelectableOverlayData>) -> SelectableOverlayData {
        let n = handles.len() as int;
        if n == 0 {
            SelectableOverlayData { top: 0, left: 0, end_x: 100, end_y: 100, selected: false }
        } else {
            SelectableOverlayData {
                top: least(Seq::new(handles.len(), |i: int| handles[i].top), n),
                left: least(Seq::new(handles.len(), |i: int| handles[i].left), n),
                end_x: greatest(Seq::new(handles.len(), |i: int| handles[i].end_x), n),
                end_y: greatest(Seq::new(handles.len(), |i: int| handles[i].end_y), n),
                selected: false,
            }
        }
    }

    /// The handle of a group surrounds the handle of each member: it begins
    /// no later and ends no earlier, on both axes.
    pub proof fn lemma_group_box_surrounds_members(forms: Seq<FormView>, i: int)
        requires
            0 <= i < forms.len(),
        ensures
            ({
                let around = FormView::Group(forms).overlay();
                let member = forms[i].overlay();
                &&& around.top <= member.top
                &&& around.left <= member.left
                &&& around.end_x >= member.end_x
                &&& around.end_y >= member.end_y
            }),
    {
        let n = forms.len() as int;
        let handles = FormView::overlays(forms, n);
        FormView::lemma_overlays(forms, n);
        let tops = Seq::new(handles.len(), |i: int| handles[i].top);
        let lefts = Seq::new(handles.len(), |i: int| handles[i].left);
        let ends_x = Seq::new(handles.len(), |i: int| handles[i].end_x);
        let ends_y = Seq::new(handles.len(), |i: int| handles[i].end_y);
        lemma_least_and_greatest(tops, n);
        lemma_least_and_greatest(lefts, n);
        lemma_least_and_greatest(ends_x, n);
        lemma_least_and_greatest(ends_y, n);
        assert(tops[i] == forms[i].overlay().top);
        assert(lefts[i] == forms[i].overlay().left);
        assert(ends_x[i] == forms[i].overlay().end_x);
        assert(ends_y[i] == forms[i].overlay().end_y);
    }

    /// The shape moved as `coords` asks. A group moves each of its members.
    pub open spec fn moved(self, coords: Coords) -> FormView
        decreases self,
    {
        match self {
            FormView::Line(line) => FormView::Line(line.moved(coords)),
            FormView::Rect(rect) => FormView::Rect(rect.moved(coords)),
            FormView::Text(text) => FormView::Text(text.moved(coords)),
            FormView::Circle(circle) => FormView::Circle(circle.moved(coords)),
            FormView::Group(forms) => FormView::Group(
                FormView::moved_all(forms, forms.len() as int, coords),
            ),
        }
    }

    /// The first `upto` of `forms`, each moved as `coords` asks.
    pub open spec fn moved_all(forms: Seq<FormView>, upto: int, coords: Coords) -> Seq<FormView>
        decreases forms, upto,
    {
        if upto <= 0 || upto > forms.len() {
            Seq::empty()
        } else {
            FormView::moved_all(forms, upto - 1, coords).push(forms[upto - 1].moved(coords))
        }
    }

    /// `overlays` goes member by member.
    pub proof fn lemma_overlays(forms: Seq<FormView>, upto: int)
        requires
            0 <= upto <= forms.len(),
        ensures
            FormView::overlays(forms, upto).len() == upto,
            forall|i: int|
                0 <= i < upto ==> (#[trigger] FormView::overlays(forms, upto)[i])
                    == forms[i].overlay(),
        decreases upto,
    {
        if upto > 0 {
            FormView::lemma_overlays(forms, upto - 1);
        }
    }

    /// `moved_all` goes member by member.
    pub proof fn lemma_moved_all(forms: Seq<FormView>, upto: int, coords: Coords)
        requires
            0 <= upto <= forms.len(),
        ensures
            FormView::moved_all(forms, upto, coords).len() == upto,
            forall|i: int|
                0 <= i < upto ==> (#[trigger] FormView::moved_all(forms, upto, coords)[i])
                    == forms[i].moved(coords),
        decreases upto,
    {
        if upto > 0 {
            FormView::lemma_moved_all(forms, upto - 1, coords);
        }
    }
}

impl Form {
    /// The key of the shape. The key of a line, a rectangle or a circle is
    /// made of its numbers; of the key of a text or a group only its range
    /// is known.
    pub fn key(&self) -> (r: u128)
        ensures
            match *self {
                Form::Line(line) => r == packed(line.x1, line.y1, line.x2, line.y2),
                Form::Rect(rect) => r == packed(rect.x, rect.y, rect.width, rect.height),
                Form::Circle(circle) => r == circle.radius,
                Form::Text(_) => r <= u64::MAX,
                Form::Group(_) => r <= u64::MAX,
            },
        decreases *self,
    {
        match self {
            Form::Line(form) => form.key(),
            Form::Rect(form) => form.key(),
            Form::Text(form) => form.key(),
            Form::Circle(form) => form.key(),
            Form::Group(form) => form.key(),
        }
    }

    /// The handle of the shape.
    pub fn get_overlay_dims(&self) -> (r: SelectableOverlayData)
        ensures
            r == self@.overlay(),
        decreases *self,
    {
        match self {
            Form::Line(form) => form.get_overlay_dims(),
            Form::Rect(form) => form.get_overlay_dims(),
            Form::Text(form) => form.get_overlay_dims(),
            Form::Circle(form) => form.get_overlay_dims(),
            Form::Group(form) => form.get_overlay_dims(),
        }
    }

    /// Moves the shape as `coords` asks.
    pub fn move_form(&mut self, coords: &Coords)
        ensures
            final(self)@ == old(self)@.moved(*coords),
        decreases *old(self),
    {
        match self {
            Form::Line(form) => form.move_form(coords),
            Form::Rect(form) => form.move_form(coords),
            Form::Text(form) => form.move_form(coords),
            Form::Circle(form) => form.move_form(coords),
            Form::Group(form) => form.move_form(coords),
        }
    }

    /// A copy of the shape.
    pub fn copied(&self) -> (r: Form)
        ensures
            r@ == self@,
        decreases *self,
    {
        match self {
            Form::Line(form) => Form::Line(form.clone()),
            Form::Rect(form) => Form::Rect(form.clone()),
            Form::Text(form) => Form::Text(form.clone()),
            Form::Circle(form) => Form::Circle(form.clone()),
            Form::Group(form) => Form::Group(form.copied()),
        }
    }
}

impl Clone for Form {
    fn clone(&self) -> (r: Form)
        ensures
            r@ == self@,
    {
        self.copied()
    }
}

impl TrueSignalClone for Form {
    fn deep_clone(&self) -> (r: Form)
        ensures
            r@ == self@,
    {
        self.copied()
    }
}

impl Group {
    /// The group of the given shapes.
    pub fn from_iter(iter: Vec<Form>) -> (r: Group)
        ensures
            r.forms == iter,
    {
        Group { forms: iter }
    }

    /// The handle of the group: the box around the handles of its members.
    pub fn get_overlay_dims(&self) -> (r: SelectableOverlayData)
        ensures
            r == FormView::Group(self@).overlay(),
        decreases *self,
    {
        let n: usize = self.forms.len();
        if n == 0 {
            return SelectableOverlayData::new(0, 0, 100, 100);
        }
        let ghost handles = FormView::overlays(self@, n as int);
        let ghost tops = Seq::new(handles.len(), |i: int| handles[i].top);
        let ghost lefts = Seq::new(handles.len(), |i: int| handles[i].left);
        let ghost ends_x = Seq::new(handles.len(), |i: int| handles[i].end_x);
        let ghost ends_y = Seq::new(handles.len(), |i: int| handles[i].end_y);
        proof {
            Form::lemma_views(self.forms@, n as int);
            FormView::lemma_overlays(self@, n as int);
        }
        assert(decreases_to!(*self => self.forms[0]));
        let first = self.forms[0].get_overlay_dims();
        let mut top: u32 = first.top();
        let mut left: u32 = first.left();
        let mut end_x: u32 = first.end_x();
        let mut end_y: u32 = first.end_y();
        let mut i: usize = 1;
        while i < n
            invariant
                1 <= i <= n,
                n == self.forms.len(),
                handles.len() == n,
                forall|j: int| 0 <= j < n ==> (#[trigger] handles[j]) == self.forms[j]@.overlay(),
                tops == Seq::new(handles.len(), |i: int| handles[i].top),
                lefts == Seq::new(handles.len(), |i: int| handles[i].left),
                ends_x == Seq::new(handles.len(), |i: int| handles[i].end_x),
                ends_y == Seq::new(handles.len(), |i: int| handles[i].end_y),
                top == least(tops, i as int),
                left == least(lefts, i as int),
                end_x == greatest(ends_x, i as int),
                end_y == greatest(ends_y, i as int),
            decreases n - i,
        {
            assert(decreases_to!(*self => self.forms[i as int]));
            let dims = self.forms[i].get_overlay_dims();
            assert(dims == handles[i as int]);
            if dims.top() < top {
                top = dims.top();
            }
            if dims.left() < left {
                left = dims.left();
            }
            if dims.end_x() > end_x {
                end_x = dims.end_x();
            }
            if dims.end_y() > end_y {
                end_y = dims.end_y();
            }
            i = i + 1;
        }
        SelectableOverlayData::new(top, left, end_x, end_y)
    }

    /// The least left of the members' handles, or 0 without members.
    pub fn left(&self) -> (r: u32)
        ensures
            r == FormView::Group(self@).overlay().left,
    {
        self.get_overlay_dims().left()
    }

    /// The least top of the members' handles, or 0 without members.
    pub fn top(&self) -> (r: u32)
        ensures
            r == FormView::Group(self@).overlay().top,
    {
        self.get_overlay_dims().top()
    }

    /// The greatest end along `x` of the members' handles, or 100 without
    /// members.
    pub fn width(&self) -> (r: u32)
        ensures
            r == FormView::Group(self@).overlay().end_x,
    {
        self.get_overlay_dims().end_x()
    }

    /// The greatest end along `y` of the members' handles, or 100 without
    /// members.
    pub fn height(&self) -> (r: u32)
        ensures
            r == FormView::Group(self@).overlay().end_y,
    {
        self.get_overlay_dims().end_y()
    }

    /// The key of the group: a hash of the keys of its members, in order.
    /// Nothing more than its range is known of the number.
    pub fn key(&self) -> (r: u128)
        ensures
            r <= u64::MAX,
        decreases *self,
    {
        let mut hasher = DefaultHasher::new();
        let n: usize = self.forms.len();
        let mut i: usize = 0;
        while i < n
            invariant
                0 <= i <= n,
                n == self.forms.len(),
            decreases n - i,
        {
            assert(decreases_to!(*self => self.forms[i as int]));
            write_u128(&mut hasher, self.forms[i].key());
            i = i + 1;
        }
        hasher.finish() as u128
    }

    /// Moves every member as `coords` asks.
    pub fn move_form(&mut self, coords: &Coords)
        ensures
            final(self)@ == FormView::moved_all(old(self)@, old(self)@.len() as int, *coords),
        decreases *old(self),
    {
        let n: usize = self.forms.len();
        let ghost before = self.forms;
        proof {
            Form::lemma_views(before@, n as int);
            FormView::lemma_moved_all(old(self)@, n as int, *coords);
        }
        let mut i: usize = 0;
        while i < n
            invariant
                0 <= i <= n,
                n == self.forms.len(),
                n == before.len(),
                old(self).forms == before,
                forall|j: int| i <= j < n ==> self.forms[j] == before[j],
                forall|j: int| 0 <= j < i ==> (#[trigger] self.forms[j])@ == before[j]@.moved(*coords),
            decreases n - i,
        {
            assert(decreases_to!(*old(self) => before[i as int]));
            self.forms[i].move_form(coords);
            i = i + 1;
        }
        proof {
            Form::lemma_views(self.forms@, n as int);
            assert(self@ =~= FormView::moved_all(old(self)@, n as int, *coords));
        }
    }

    /// A copy of the group, member by member.
    pub fn copied(&self) -> (r: Group)
        ensures
            r@ == self@,
        decreases *self,
    {
        let n: usize = self.forms.len();
        let mut forms: Vec<Form> = Vec::new();
        let mut i: usize = 0;
        while i < n
            invariant
                0 <= i <= n,
                n == self.forms.len(),
                forms.len() == i,
                forall|j: int| 0 <= j < i ==> (#[trigger] forms[j])@ == self.forms[j]@,
            decreases n - i,
        {
            assert(decreases_to!(*self => self.forms[i as int]));
            forms.push(self.forms[i].copied());
            i = i + 1;
        }
        let r = Group { forms };
        proof {
            Form::lemma_views(self.forms@, n as int);
            Form::lemma_views(r.forms@, n as int);
            assert(r@ =~= self@);
        }
        r
    }
}

impl Clone for Group {
    fn clone(&self) -> (r: Group)
        ensures
            r@ == self@,
    {
        self.copied()
    }
}

impl TrueSignalClone for Group {
    fn deep_clone(&self) -> (r: Group)
        ensures
            r@ == self@,
    {
        self.copied()
    }
}

impl CreateComFSM {
    /// The shape that the command typed so far would draw if it ended here,
    /// with the reference point at `cursor` and `text` as the wording of a
    /// text. A move draws nothing, and its kind is handed back.
    pub fn try_into(self, cursor: (u32, u32), text: String) -> (r: Result<Form, CommandType>)
        ensures
            match r {
                Ok(form) => form.draws(self@.finished(cursor), cursor, text),
                Err(other) => other == CommandType::Move && self@.finished(cursor).ctype is Move,
            },
    {
        let com = Command::from(self, cursor);
        Form::try_from(com, cursor, text)
    }
}

impl Form {
    /// Whether this is the shape that the command `com` draws with the
    /// reference point at `cursor`, and with `text` as the wording if the
    /// shape is a text.
    pub open spec fn draws(self, com: CommandView, cursor: (u32, u32), text: String) -> bool {
        match self {
            Form::Line(line) => line.draws(com, cursor),
            Form::Rect(rect) => rect.draws(com, cursor),
            Form::Text(t) => t.draws(com, cursor, text),
            Form::Circle(circle) => circle.draws(com, cursor),
            Form::Group(_) => false,
        }
    }

    /// The shape that a command draws, with the reference point at `cursor`
    /// and `text` as the wording of a text. A move draws nothing, and its
    /// kind is handed back.
    pub fn try_from(com: Command, cursor: (u32, u32), text: String) -> (r: Result<
        Form,
        CommandType,
    >)
        ensures
            match r {
                Ok(form) => form.draws(com@, cursor, text),
                Err(other) => other == CommandType::Move && com@.ctype is Move,
            },
    {
        match com.ctype() {
            CommandType::Line => match Line::try_from(com, cursor) {
                Ok(form) => Ok(Form::Line(form)),
                Err(other) => Err(other),
            },
            CommandType::Rectangle => match Rect::try_from(com, cursor) {
                Ok(form) => Ok(Form::Rect(form)),
                Err(other) => Err(other),
            },
            CommandType::Text => match Text::try_from(com, cursor, text) {
                Ok(form) => Ok(Form::Text(form)),
                Err(other) => Err(other),
            },
            CommandType::Circle(_) => match Circle::try_from(com, cursor) {
                Ok(form) => Ok(Form::Circle(form)),
                Err(other) => Err(other),
            },
            other => Err(other),
        }
    }
}

} // verus!

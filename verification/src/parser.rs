//! The command language: a leader key picks the kind of command, the keys
//! after it spell a coordinate, a colour name, a radius or modifiers, and a
//! newline ends the command.
//!
//! Every key is one call of [`CreateComFSM::advance`], which hands back
//! either the next parse state or the finished [`Command`]. The reference
//! point that relative coordinates are anchored to is an argument of every
//! function that needs it.

use vstd::prelude::*;

pub mod coords;
pub mod keys;
pub mod laws;
pub mod modifiers;
pub mod render;

pub use coords::{Coords, Direction, RelCoordPair};
pub use modifiers::{ModifierType, Modifiers};

use coords::{AbsCoord, CoordFSM, RelCoord};
use keys::{digit_value, fast_direction_of, push_num, pushed, to_digit, FastDirection};
use modifiers::modifier_of;

verus! {

/// The kind of a command. A circle carries its radius.
#[derive(Clone, Copy, Debug, PartialEq, Eq, Structural)]
pub enum CommandType {
    Move,
    Line,
    Rectangle,
    Text,
    Circle(u32),
}

/// How far the coordinate of a command has come. A command only ever moves
/// down this list.
#[derive(Clone, Copy, Debug, PartialEq, Eq, Structural)]
pub enum CoordState {
    /// No coordinate key was typed yet.
    NotStarted,
    /// A coordinate is being typed.
    Pending(CoordFSM),
    /// The coordinate is complete.
    Resolved(Coords),
}

impl CoordState {
    /// The position of this state in the order `NotStarted`, `Pending`,
    /// `Resolved`.
    pub open spec fn rank(self) -> nat {
        match self {
            CoordState::NotStarted => 0,
            CoordState::Pending(_) => 1,
            CoordState::Resolved(_) => 2,
        }
    }
}

/// The view of an optional string: its characters.
pub open spec fn opt_chars(s: Option<String>) -> Option<Seq<char>> {
    match s {
        Some(s) => Some(s@),
        None => None,
    }
}

/// A command while it is being typed.
#[derive(Debug, PartialEq, Eq)]
pub struct CreateComFSM {
    coords: CoordState,
    ctype: CommandType,
    color: Option<String>,
    mods: Modifiers,
}

/// What a [`CreateComFSM`] holds.
pub struct FsmView {
    pub coords: CoordState,
    pub ctype: CommandType,
    /// The colour name typed so far, once `@` was typed.
    pub color: Option<Seq<char>>,
    pub mods: Modifiers,
}

/// A finished command.
#[derive(Debug, PartialEq, Eq)]
pub struct Command {
    start_coords: Option<Coords>,
    coords: Coords,
    ctype: CommandType,
    color: Option<String>,
    mods: Modifiers,
}

/// What a [`Command`] holds.
pub struct CommandView {
    /// Where the command starts, if not at the reference point.
    pub start_coords: Option<Coords>,
    pub coords: Coords,
    pub ctype: CommandType,
    pub color: Option<Seq<char>>,
    pub mods: Modifiers,
}

impl View for CreateComFSM {
    type V = FsmView;

    closed spec fn view(&self) -> FsmView {
        FsmView {
            coords: self.coords,
            ctype: self.ctype,
            color: opt_chars(self.color),
            mods: self.mods,
        }
    }
}

impl View for Command {
    type V = CommandView;

    closed spec fn view(&self) -> CommandView {
        CommandView {
            start_coords: self.start_coords,
            coords: self.coords,
            ctype: self.ctype,
            color: opt_chars(self.color),
            mods: self.mods,
        }
    }
}

/// The outcome of parsing a whole string of keys.
#[derive(Debug, PartialEq, Eq)]
pub enum FSMResult {
    /// The keys spelled a complete command.
    OkCommand(Command),
    /// The keys were used up before the command ended.
    OkFSM(CreateComFSM),
    /// The first key starts no command (`'\0'` if there was no key at all).
    Rejected(char),
}

/// What an [`FSMResult`] holds.
pub enum FSMResultView {
    OkCommand(CommandView),
    OkFSM(FsmView),
    Rejected(char),
}

impl View for FSMResult {
    type V = FSMResultView;

    open spec fn view(&self) -> FSMResultView {
        match self {
            FSMResult::OkCommand(com) => FSMResultView::OkCommand(com@),
            FSMResult::OkFSM(fsm) => FSMResultView::OkFSM(fsm@),
            FSMResult::Rejected(c) => FSMResultView::Rejected(*c),
        }
    }
}

/// The view of the outcome of one key.
pub open spec fn step_view(r: Result<Command, CreateComFSM>) -> Result<CommandView, FsmView> {
    match r {
        Ok(com) => Ok(com@),
        Err(fsm) => Err(fsm@),
    }
}

impl FsmView {
    /// Every fast direction held moves along some axis.
    pub open spec fn wf(self) -> bool {
        self.coords matches CoordState::Pending(fsm) ==> fsm.wf()
    }

    /// The state a leader key opens a command with, if `c` is a leader key.
    ///
    /// `l`, `r`, `t` and `c` pick a shape and leave the coordinate unstarted.
    /// Any other key that opens a coordinate opens a move, and is already
    /// the first key of its coordinate. So `c` leads a circle here, and is
    /// a fast direction only behind a leader.
    pub open spec fn leader(c: char) -> Option<FsmView> {
        let shape = |ctype: CommandType|
            FsmView {
                coords: CoordState::NotStarted,
                ctype,
                color: None,
                mods: Modifiers::empty(),
            };
        if c == 'l' {
            Some(shape(CommandType::Line))
        } else if c == 'r' {
            Some(shape(CommandType::Rectangle))
        } else if c == 't' {
            Some(shape(CommandType::Text))
        } else if c == 'c' {
            Some(shape(CommandType::Circle(0)))
        } else {
            match FsmView::opened(c) {
                Some(fsm) => Some(
                    FsmView {
                        coords: CoordState::Pending(fsm),
                        ctype: CommandType::Move,
                        color: None,
                        mods: Modifiers::empty(),
                    },
                ),
                None => None,
            }
        }
    }

    /// The coordinate that key `c` opens when none was started, if `c` opens
    /// one: a digit opens a relative coordinate and is its first digit, `a`
    /// opens an absolute coordinate, and any other fast-direction key opens
    /// a fast move.
    pub open spec fn opened(c: char) -> Option<CoordFSM> {
        if let Some(d) = digit_value(c) {
            Some(CoordFSM::Rel(RelCoord::EnteringFirstNum(d)))
        } else if c == 'a' {
            Some(CoordFSM::Abs(AbsCoord::EnteringFirstNum(0)))
        } else if let Some(dir) = fast_direction_of(c) {
            Some(CoordFSM::Rel(RelCoord::Direction(dir)))
        } else {
            None
        }
    }

    /// Whether typed digits are still the radius of a circle and not yet a
    /// coordinate: the command is a circle without a radius, and all that
    /// was typed of a coordinate is a bare number.
    pub open spec fn bare_radius(self) -> Option<u32> {
        match (self.ctype, self.coords) {
            (
                CommandType::Circle(0),
                CoordState::Pending(CoordFSM::Rel(RelCoord::EnteringFirstNum(rad))),
            ) => Some(rad),
            _ => None,
        }
    }

    /// The command this state stands for when it ends here, with the
    /// reference point at `cursor`.
    ///
    /// An unstarted coordinate is the reference point. A coordinate that is
    /// still being typed is ended where it stands. A bare number typed after
    /// the leader of a circle is its radius, and the circle sits at the
    /// reference point.
    pub open spec fn finished(self, cursor: (u32, u32)) -> CommandView {
        let here = Coords::AbsCoord(cursor.0, cursor.1);
        let (ctype, coords) = match self.coords {
            CoordState::NotStarted => (self.ctype, here),
            CoordState::Resolved(coords) => (self.ctype, coords),
            CoordState::Pending(fsm) => match self.bare_radius() {
                Some(rad) => (CommandType::Circle(rad), here),
                None => (self.ctype, fsm.forced(cursor)),
            },
        };
        CommandView { start_coords: None, coords, ctype, color: self.color, mods: self.mods }
    }

    /// Whether key `c` means something in this state.
    pub open spec fn accepts(self, c: char) -> bool {
        c == '\n' || c == '@' || self.color is Some || match self.coords {
            CoordState::NotStarted => FsmView::opened(c) is Some,
            CoordState::Pending(fsm) => fsm.accepts(c) || (fsm matches CoordFSM::Abs(
                AbsCoord::EnteringFirstNum(_),
            ) && modifier_of(c) is Some),
            CoordState::Resolved(_) => match self.ctype {
                CommandType::Circle(_) => digit_value(c) is Some || c == ';',
                _ => modifier_of(c) is Some,
            },
        }
    }

    /// The transition on key `c` with the reference point at `cursor`: `Ok`
    /// with the finished command, or `Err` with the next state.
    ///
    /// In order: a newline ends the command. `@` opens an empty colour name.
    /// While a colour name is open, `;` ends the command and any other key
    /// joins the name. Otherwise the key goes to the coordinate until that is
    /// complete (a modifier key typed while the first number of an absolute
    /// coordinate is entered also sets its flag), and after that to the
    /// radius of a circle, or to the modifiers of any other command. A key
    /// that means nothing where it arrives leaves the state as it is.
    pub open spec fn step(self, c: char, cursor: (u32, u32)) -> Result<CommandView, FsmView> {
        if c == '\n' {
            Ok(self.finished(cursor))
        } else if c == '@' {
            Err(FsmView { color: Some(Seq::empty()), ..self })
        } else if let Some(name) = self.color {
            if c == ';' {
                Ok(self.finished(cursor))
            } else {
                Err(FsmView { color: Some(name.push(c)), ..self })
            }
        } else {
            match self.coords {
                CoordState::NotStarted => match FsmView::opened(c) {
                    Some(fsm) => Err(FsmView { coords: CoordState::Pending(fsm), ..self }),
                    None => Err(self),
                },
                CoordState::Pending(fsm) => {
                    let mods = match (fsm, modifier_of(c)) {
                        (CoordFSM::Abs(AbsCoord::EnteringFirstNum(_)), Some(m)) => self.mods.with(
                            m,
                        ),
                        _ => self.mods,
                    };
                    match fsm.spec_advance(c) {
                        Ok(coords) => Err(
                            FsmView { coords: CoordState::Resolved(coords), mods, ..self },
                        ),
                        Err(next) => Err(FsmView { coords: CoordState::Pending(next), mods, ..self }),
                    }
                },
                CoordState::Resolved(coords) => match self.ctype {
                    CommandType::Circle(num) => {
                        if digit_value(c) is Some {
                            Err(FsmView { ctype: CommandType::Circle(pushed(num, c)), ..self })
                        } else if c == ';' {
                            Ok(
                                CommandView {
                                    start_coords: None,
                                    coords,
                                    ctype: self.ctype,
                                    color: None,
                                    mods: self.mods,
                                },
                            )
                        } else {
                            Err(self)
                        }
                    },
                    _ => match modifier_of(c) {
                        Some(m) => Err(FsmView { mods: self.mods.with(m), ..self }),
                        None => Err(self),
                    },
                },
            }
        }
    }

    /// The outcome of typing the keys `keys` one after the other, starting in
    /// this state: the first command that a key finishes, or the state after
    /// the last key.
    pub open spec fn run(self, keys: Seq<char>, cursor: (u32, u32)) -> FSMResultView
        decreases keys.len(),
    {
        if keys.len() == 0 {
            FSMResultView::OkFSM(self)
        } else {
            match self.step(keys[0], cursor) {
                Ok(com) => FSMResultView::OkCommand(com),
                Err(next) => next.run(keys.drop_first(), cursor),
            }
        }
    }

    /// The outcome of typing the keys `keys` from scratch: the first key must
    /// be a leader, the rest are typed into the state it opens.
    pub open spec fn parse(keys: Seq<char>, cursor: (u32, u32)) -> FSMResultView {
        if keys.len() == 0 {
            FSMResultView::Rejected('\0')
        } else {
            match FsmView::leader(keys[0]) {
                Some(fsm) => fsm.run(keys.drop_first(), cursor),
                None => FSMResultView::Rejected(keys[0]),
            }
        }
    }
}

impl CommandView {
    /// Where the command starts when the reference point is `cursor`: at its
    /// own start point if it has one, else at the reference point.
    pub open spec fn start(self, cursor: (u32, u32)) -> (u32, u32) {
        match self.start_coords {
            None => cursor,
            Some(c) => c.resolved(cursor),
        }
    }
}

impl Command {
    /// A command with exactly the given parts.
    pub fn new(
        ctype: CommandType,
        start_coords: Option<Coords>,
        coords: Coords,
        color: Option<String>,
        mods: Modifiers,
    ) -> (r: Command)
        ensures
            r@ == (CommandView { start_coords, coords, ctype, color: opt_chars(color), mods }),
    {
        Command { start_coords, coords, ctype, color, mods }
    }

    /// Ends the command that `value` was typing, with the reference point at
    /// `cursor`.
    pub fn from(value: CreateComFSM, cursor: (u32, u32)) -> (r: Command)
        ensures
            r@ == value@.finished(cursor),
    {
        let mut ctype = value.ctype;
        let coords: Coords = match value.coords {
            CoordState::NotStarted => Coords::from_cursor(cursor),
            CoordState::Resolved(coords) => coords,
            CoordState::Pending(fsm) => {
                let mut radius: Option<u32> = None;
                if let CommandType::Circle(rad) = value.ctype {
                    if rad == 0 {
                        if let CoordFSM::Rel(RelCoord::EnteringFirstNum(real_rad)) = fsm {
                            radius = Some(real_rad);
                        }
                    }
                }
                match radius {
                    Some(real_rad) => {
                        ctype = CommandType::Circle(real_rad);
                        Coords::from_cursor(cursor)
                    },
                    None => Coords::from_fsm(fsm, cursor),
                }
            },
        };
        Command { start_coords: None, coords, ctype, color: value.color, mods: value.mods }
    }

    /// The kind of the command.
    pub fn ctype(&self) -> (r: CommandType)
        ensures
            r == self@.ctype,
    {
        self.ctype
    }

    /// The coordinate of the command, unresolved.
    pub fn coords(&self) -> (r: Coords)
        ensures
            r == self@.coords,
    {
        self.coords
    }

    /// The colour name of the command, if one was typed.
    pub fn color(&self) -> (r: Option<String>)
        ensures
            opt_chars(r) == self@.color,
    {
        match &self.color {
            Some(name) => Some(name.clone()),
            None => None,
        }
    }

    /// The modifiers of the command.
    pub fn mods(&self) -> (r: &Modifiers)
        ensures
            *r == self@.mods,
    {
        &self.mods
    }

    /// Where the command starts: its own start point if it has one, else the
    /// reference point `cursor`.
    pub fn start_coords(&self, cursor: (u32, u32)) -> (r: (u32, u32))
        ensures
            r == self@.start(cursor),
    {
        match &self.start_coords {
            None => cursor,
            Some(c) => c.resolve(cursor),
        }
    }
}

impl Clone for Command {
    fn clone(&self) -> (r: Command)
        ensures
            r@ == self@,
    {
        Command {
            start_coords: self.start_coords,
            coords: self.coords,
            ctype: self.ctype,
            color: self.color(),
            mods: self.mods,
        }
    }
}

impl Clone for CreateComFSM {
    fn clone(&self) -> (r: CreateComFSM)
        ensures
            r@ == self@,
    {
        let color = match &self.color {
            Some(name) => Some(name.clone()),
            None => None,
        };
        CreateComFSM { coords: self.coords, ctype: self.ctype, color, mods: self.mods }
    }
}

impl CreateComFSM {
    /// Every fast direction held moves along some axis.
    pub open spec fn wf(&self) -> bool {
        self@.wf()
    }

    /// How far the coordinate has come.
    pub fn coords(&self) -> (r: CoordState)
        ensures
            r == self@.coords,
    {
        self.coords
    }

    /// The kind of command being typed.
    pub fn ctype(&self) -> (r: CommandType)
        ensures
            r == self@.ctype,
    {
        self.ctype
    }

    /// The colour name typed so far, once `@` was typed.
    pub fn color(&self) -> (r: Option<String>)
        ensures
            opt_chars(r) == self@.color,
    {
        match &self.color {
            Some(name) => Some(name.clone()),
            None => None,
        }
    }

    /// The modifiers set so far.
    pub fn mods(&self) -> (r: &Modifiers)
        ensures
            *r == self@.mods,
    {
        &self.mods
    }

    /// Parses a whole string of keys with the reference point at `cursor`.
    /// Keys behind the one that finishes a command are not read.
    pub fn from(str: String, cursor: (u32, u32)) -> (r: FSMResult)
        ensures
            r@ == FsmView::parse(str@, cursor),
            r matches FSMResult::OkFSM(fsm) ==> fsm.wf(),
    {
        let keys = str.as_str();
        let n: usize = keys.unicode_len();
        if n == 0 {
            return FSMResult::Rejected('\0');
        }
        let mut ret = match CreateComFSM::new(keys.get_char(0)) {
            Ok(fsm) => fsm,
            Err(c) => return FSMResult::Rejected(c),
        };
        assert(keys@.drop_first() == keys@.subrange(1, n as int));
        let mut i: usize = 1;
        while i < n
            invariant
                1 <= i <= n,
                n == keys@.len(),
                keys@ == str@,
                ret.wf(),
                FsmView::parse(keys@, cursor) == ret@.run(
                    keys@.subrange(i as int, n as int),
                    cursor,
                ),
            decreases n - i,
        {
            let ghost rest = keys@.subrange(i as int, n as int);
            assert(rest[0] == keys@[i as int]);
            assert(rest.drop_first() == keys@.subrange(i + 1, n as int));
            match ret.advance(keys.get_char(i), cursor) {
                Ok(com) => return FSMResult::OkCommand(com),
                Err(new_state) => ret = new_state,
            }
            i = i + 1;
        }
        FSMResult::OkFSM(ret)
    }

    /// Opens a command with its leader key. A key that starts no command is
    /// handed back.
    pub fn new(next_char: char) -> (r: Result<CreateComFSM, char>)
        ensures
            match r {
                Ok(fsm) => FsmView::leader(next_char) == Some(fsm@) && fsm.wf(),
                Err(c) => FsmView::leader(next_char) is None && c == next_char,
            },
    {
        let mut coords = CoordState::NotStarted;
        let ctype = if next_char == 'l' {
            CommandType::Line
        } else if next_char == 'r' {
            CommandType::Rectangle
        } else if next_char == 't' {
            CommandType::Text
        } else if next_char == 'c' {
            CommandType::Circle(0)
        } else {
            match CreateComFSM::open_coords(next_char) {
                Some(fsm) => {
                    coords = CoordState::Pending(fsm);
                    CommandType::Move
                },
                None => {
                    return Err(next_char);
                },
            }
        };
        Ok(CreateComFSM { coords, ctype, color: None, mods: Modifiers::new() })
    }

    /// The coordinate state that key `c` opens, if it opens one.
    fn open_coords(c: char) -> (r: Option<CoordFSM>)
        ensures
            r == FsmView::opened(c),
            r matches Some(fsm) ==> fsm.wf(),
    {
        match to_digit(c) {
            Some(d) => Some(CoordFSM::Rel(RelCoord::EnteringFirstNum(d))),
            None => {
                if c == 'a' {
                    Some(CoordFSM::Abs(AbsCoord::EnteringFirstNum(0)))
                } else {
                    match FastDirection::try_from(c) {
                        Ok(dir) => Some(CoordFSM::Rel(RelCoord::Direction(dir))),
                        Err(_) => None,
                    }
                }
            },
        }
    }

    /// Sets the flag of a modifier key. Any other key is reported and
    /// changes nothing.
    fn parse_mods(&mut self, next_char: char) -> (r: FSMResult)
        ensures
            match modifier_of(next_char) {
                Some(m) => final(self)@ == (FsmView { mods: old(self)@.mods.with(m), ..old(self)@ })
                    && r@ == FSMResultView::OkFSM(final(self)@),
                None => *final(self) == *old(self) && r@ == FSMResultView::Rejected(next_char),
            },
    {
        match ModifierType::try_from(next_char) {
            Ok(m) => {
                self.mods.set(m);
            },
            Err(c) => {
                return FSMResult::Rejected(c);
            },
        }
        FSMResult::OkFSM(self.clone())
    }

    /// Types one key into the command, with the reference point at `cursor`.
    /// Returns `Ok` with the finished command or `Err` with the next state.
    /// A key that means nothing in this state is dropped and the state comes
    /// back exactly as it was.
    pub fn advance(self, next_char: char, cursor: (u32, u32)) -> (r: Result<Command, CreateComFSM>)
        ensures
            step_view(r) == self@.step(next_char, cursor),
            !self@.accepts(next_char) ==> r == Err::<Command, CreateComFSM>(self),
            self.wf() ==> (r matches Err(next) ==> next.wf()),
    {
        if next_char == '\n' {
            return Ok(Command::from(self, cursor));
        }
        if next_char == '@' {
            return Err(CreateComFSM { color: Some(String::new()), ..self });
        }
        let mut fsm = self;
        match fsm.color {
            Some(mut name) => {
                if next_char == ';' {
                    fsm.color = Some(name);
                    return Ok(Command::from(fsm, cursor));
                }
                name.push(next_char);
                Err(CreateComFSM { color: Some(name), ..fsm })
            },
            None => {
                match fsm.coords {
                    CoordState::NotStarted => match CreateComFSM::open_coords(next_char) {
                        Some(opened) => Err(
                            CreateComFSM { coords: CoordState::Pending(opened), ..fsm },
                        ),
                        None => Err(fsm),
                    },
                    CoordState::Pending(sub) => {
                        if let CoordFSM::Abs(AbsCoord::EnteringFirstNum(_)) = sub {
                            let _ = fsm.parse_mods(next_char);
                        }
                        match sub.advance(next_char) {
                            Ok(coords) => Err(
                                CreateComFSM { coords: CoordState::Resolved(coords), ..fsm },
                            ),
                            Err(next_state) => Err(
                                CreateComFSM { coords: CoordState::Pending(next_state), ..fsm },
                            ),
                        }
                    },
                    CoordState::Resolved(coords) => match fsm.ctype {
                        CommandType::Circle(num) => {
                            if to_digit(next_char).is_some() {
                                Err(
                                    CreateComFSM {
                                        ctype: CommandType::Circle(push_num(num, next_char)),
                                        ..fsm
                                    },
                                )
                            } else if next_char == ';' {
                                Ok(
                                    Command {
                                        start_coords: None,
                                        coords,
                                        ctype: fsm.ctype,
                                        color: None,
                                        mods: fsm.mods,
                                    },
                                )
                            } else {
                                Err(fsm)
                            }
                        },
                        _ => {
                            let _ = fsm.parse_mods(next_char);
                            Err(fsm)
                        },
                    },
                }
            },
        }
    }
}

} // verus!

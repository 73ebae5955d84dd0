//! What the canvas keeps beside the shapes: the selection mode, the handle
//! drawn over each shape, and the names of those handles.

use vstd::prelude::*;

use crate::graphics::Form;
use crate::parser::{Command, CommandType, Coords, CreateComFSM, FsmView};

verus! {

/// Whether shapes are being picked.
#[derive(Clone, Copy, Debug, PartialEq, Eq, Structural)]
pub enum SelectState {
    Off,
    SelectModeOn,
    FormsSelected,
}

/// The box of the handle drawn over a shape, and whether it is picked.
#[derive(Clone, Copy, Debug, PartialEq, Eq, Structural)]
pub struct SelectableOverlayData {
    pub top: u32,
    pub left: u32,
    pub end_x: u32,
    pub end_y: u32,
    pub selected: bool,
}

impl SelectableOverlayData {
    /// A handle over the given box, not picked.
    pub fn new(top: u32, left: u32, end_x: u32, end_y: u32) -> (r: SelectableOverlayData)
        ensures
            r == (SelectableOverlayData { top, left, end_x, end_y, selected: false }),
    {
        SelectableOverlayData { top, left, end_x, end_y, selected: false }
    }

    pub fn top(&self) -> (r: u32)
        ensures
            r == self.top,
    {
        self.top
    }

    pub fn left(&self) -> (r: u32)
        ensures
            r == self.left,
    {
        self.left
    }

    pub fn end_x(&self) -> (r: u32)
        ensures
            r == self.end_x,
    {
        self.end_x
    }

    pub fn end_y(&self) -> (r: u32)
        ensures
            r == self.end_y,
    {
        self.end_y
    }

    /// Marks the handle as picked or not. The box stays.
    pub fn set_selected(&mut self, selected: bool)
        ensures
            *final(self) == (SelectableOverlayData { selected, ..*old(self) }),
    {
        self.selected = selected;
    }

    /// Where the name of the handle is drawn, as `(top, left)`: halfway
    /// along each side of the box, and at its start along a side whose end
    /// lies before its start.
    pub open spec fn anchor(self) -> (u32, u32) {
        (
            (self.top + (if self.end_y >= self.top {
                self.end_y - self.top
            } else {
                0
            }) / 2) as u32,
            (self.left + (if self.end_x >= self.left {
                self.end_x - self.left
            } else {
                0
            }) / 2) as u32,
        )
    }

    /// Where the name of the handle is drawn, as `(top, left)`.
    pub fn label_anchor(&self) -> (r: (u32, u32))
        ensures
            r == self.anchor(),
            self.end_y >= self.top ==> self.top <= r.0 <= self.end_y,
            self.end_x >= self.left ==> self.left <= r.1 <= self.end_x,
    {
        let half_height: u32 = self.end_y.saturating_sub(self.top) / 2;
        let half_width: u32 = self.end_x.saturating_sub(self.left) / 2;
        (self.top + half_height, self.left + half_width)
    }
}

/// The start and end point of a command's coordinate, as
/// `(x, y, x2, y2)`: it starts at the reference point `cursor`.
pub fn calc_coords(coords: &Coords, cursor: (u32, u32)) -> (r: (u32, u32, u32, u32))
    ensures
        r == (cursor.0, cursor.1, coords.resolved(cursor).0, coords.resolved(cursor).1),
{
    let (x, y) = cursor;
    match coords {
        Coords::AbsCoord(x2, y2) => (x, y, *x2, *y2),
        Coords::RelCoord(fcp) => {
            let (x2, y2) = fcp.resolve_fcp(cursor);
            (x, y, x2, y2)
        },
    }
}

/// What a finished command does to the canvas.
#[derive(Debug, PartialEq, Eq)]
pub enum CommandEffect {
    /// Every picked shape moves as the coordinate asks.
    MoveSelection(Coords),
    /// The reference point goes to `(x, y)`.
    MoveCursor(u32, u32),
    /// The shape is added to the canvas, with its handle.
    AddForm(Form, SelectableOverlayData),
}

/// Whether carrying out `com` needs a wording from the user first: it draws
/// a text.
pub fn wants_text(com: &Command, select_mode: &SelectState) -> (r: bool)
    ensures
        r == (!(*select_mode is FormsSelected) && com@.ctype is Text),
{
    match select_mode {
        SelectState::FormsSelected => false,
        _ => match com.ctype() {
            CommandType::Text => true,
            _ => false,
        },
    }
}

/// What the finished command `com` does, with the reference point at
/// `cursor` and `text` as the wording of a text.
///
/// While shapes are picked, a move moves them; no other command is
/// understood then. Otherwise a move puts the reference point at its
/// resolved coordinate, and any other command adds the shape it draws.
pub fn parse_command(com: Command, select_mode: &SelectState, cursor: (u32, u32), text: String) -> (r:
    CommandEffect)
    requires
        *select_mode is FormsSelected ==> com@.ctype is Move,
    ensures
        match r {
            CommandEffect::MoveSelection(coords) => *select_mode is FormsSelected && coords
                == com@.coords,
            CommandEffect::MoveCursor(x, y) => !(*select_mode is FormsSelected) && com@.ctype is Move
                && (x, y) == com@.coords.resolved(cursor),
            CommandEffect::AddForm(form, handle) => !(*select_mode is FormsSelected) && form.draws(
                com@,
                cursor,
                text,
            ) && handle == form@.overlay(),
        },
{
    if let SelectState::FormsSelected = select_mode {
        return CommandEffect::MoveSelection(com.coords());
    }
    let coords = com.coords();
    match Form::try_from(com, cursor, text) {
        Ok(form) => {
            let handle = form.get_overlay_dims();
            CommandEffect::AddForm(form, handle)
        },
        Err(_) => {
            let (x, y) = coords.resolve(cursor);
            CommandEffect::MoveCursor(x, y)
        },
    }
}

/// The character a key event stands for: `Enter` is a newline, a key named
/// by one ASCII character is that character, and no other key is typed.
pub open spec fn typed_char(key: Seq<char>) -> Option<char> {
    if key == "Enter"@ {
        Some('\n')
    } else if key.len() == 1 && key[0] as u32 <= 0x7f {
        Some(key[0])
    } else {
        None
    }
}

/// The character a key event stands for, if it types one.
pub fn key_to_char(key: &str) -> (r: Option<char>)
    ensures
        r == typed_char(key@),
{
    proof {
        reveal_strlit("Enter");
    }
    let n: usize = key.unicode_len();
    if n == 5 && key.get_char(0) == 'E' && key.get_char(1) == 'n' && key.get_char(2) == 't'
        && key.get_char(3) == 'e' && key.get_char(4) == 'r' {
        assert(key@ =~= "Enter"@);
        Some('\n')
    } else if n == 1 {
        let c: char = key.get_char(0);
        if c as u32 <= 0x7f {
            Some(c)
        } else {
            None
        }
    } else {
        None
    }
}

/// Whether the key event `key` is the key named `name`.
pub fn is_key(key: &str, name: &str) -> (r: bool)
    ensures
        r == (key@ == name@),
{
    let n: usize = key.unicode_len();
    if n != name.unicode_len() {
        return false;
    }
    let mut i: usize = 0;
    while i < n
        invariant
            0 <= i <= n,
            n == key@.len(),
            n == name@.len(),
            forall|k: int| 0 <= k < i ==> key@[k] == name@[k],
        decreases n - i,
    {
        if key.get_char(i) != name.get_char(i) {
            return false;
        }
        i = i + 1;
    }
    assert(key@ =~= name@);
    true
}

/// How a key changes the list of names typed while shapes are picked.
#[derive(Clone, Copy, Debug, PartialEq, Eq, Structural)]
pub enum SelectionEdit {
    /// The character joins the list.
    Append(char),
    /// The last character of the list goes.
    EraseLast,
    /// The list stays.
    Keep,
}

/// What a key event asks of the canvas.
#[derive(Clone, Copy, Debug, PartialEq, Eq, Structural)]
pub enum KeyAction {
    /// Shapes are being picked: the key edits the list of names, and
    /// `confirm` says whether it also ends the picking.
    EditSelection { edit: SelectionEdit, confirm: bool },
    /// The picked shapes are removed.
    Delete,
    /// The picked shapes are let go, and stay.
    Yank,
    /// The picked shapes become a group.
    Group,
    /// Whatever is typed or picked is dropped.
    ClearSelection,
    /// Picking begins.
    StartSelecting,
    /// Copies of the picked shapes are put at the reference point.
    Paste,
    /// The last key typed into the command is taken back.
    TakeBack,
    /// The newest shape is removed and kept aside.
    Undo,
    /// The shape kept aside comes back.
    Redo,
    /// The character is typed into the command.
    Type(char),
    /// The key does nothing.
    Ignore,
}

/// What the key event `key` asks for, when the selection mode is `mode`,
/// `typing` says whether a command is being typed, and `typed_any` whether
/// any key of it is on record.
///
/// While shapes are being picked every key edits the list of names. Once
/// shapes are picked, `d`, `y` and `g` act on them. Otherwise, and for every
/// other key: `Escape` clears, `p` pastes, `Backspace` takes back a typed key
/// if there is one; `e`, `u` and `U` begin picking, undo and redo unless a
/// command is being typed; and any key left over is typed if it stands for a
/// character.
pub open spec fn key_action_of(
    mode: SelectState,
    typing: bool,
    typed_any: bool,
    key: Seq<char>,
) -> KeyAction {
    if mode is SelectModeOn {
        KeyAction::EditSelection {
            edit: if key.len() == 1 && key[0] as u32 <= 0x7f {
                SelectionEdit::Append(key[0])
            } else if key == "Backspace"@ && typed_any {
                SelectionEdit::EraseLast
            } else {
                SelectionEdit::Keep
            },
            confirm: key == "Enter"@,
        }
    } else if mode is FormsSelected && key == "d"@ {
        KeyAction::Delete
    } else if mode is FormsSelected && key == "y"@ {
        KeyAction::Yank
    } else if mode is FormsSelected && key == "g"@ {
        KeyAction::Group
    } else if key == "Escape"@ {
        KeyAction::ClearSelection
    } else if key == "e"@ && !typing {
        KeyAction::StartSelecting
    } else if key == "p"@ {
        KeyAction::Paste
    } else if key == "Backspace"@ && typed_any {
        KeyAction::TakeBack
    } else if key == "u"@ && !typing {
        KeyAction::Undo
    } else if key == "U"@ && !typing {
        KeyAction::Redo
    } else {
        match typed_char(key) {
            Some(c) => KeyAction::Type(c),
            None => KeyAction::Ignore,
        }
    }
}

/// What the key event `key` asks of the canvas.
pub fn key_action(mode: &SelectState, typing: bool, typed_any: bool, key: &str) -> (r: KeyAction)
    ensures
        r == key_action_of(*mode, typing, typed_any, key@),
{
    if let SelectState::SelectModeOn = mode {
        let edit = if key.unicode_len() == 1 && key.get_char(0) as u32 <= 0x7f {
            SelectionEdit::Append(key.get_char(0))
        } else if is_key(key, "Backspace") && typed_any {
            SelectionEdit::EraseLast
        } else {
            SelectionEdit::Keep
        };
        return KeyAction::EditSelection { edit, confirm: is_key(key, "Enter") };
    }
    if let SelectState::FormsSelected = mode {
        if is_key(key, "d") {
            return KeyAction::Delete;
        }
        if is_key(key, "y") {
            return KeyAction::Yank;
        }
        if is_key(key, "g") {
            return KeyAction::Group;
        }
    }
    if is_key(key, "Escape") {
        KeyAction::ClearSelection
    } else if is_key(key, "e") && !typing {
        KeyAction::StartSelecting
    } else if is_key(key, "p") {
        KeyAction::Paste
    } else if is_key(key, "Backspace") && typed_any {
        KeyAction::TakeBack
    } else if is_key(key, "u") && !typing {
        KeyAction::Undo
    } else if is_key(key, "U") && !typing {
        KeyAction::Redo
    } else {
        match key_to_char(key) {
            Some(c) => KeyAction::Type(c),
            None => KeyAction::Ignore,
        }
    }
}

/// Which handle was marked last while shapes are picked, and how many names
/// the list held when the picking began.
#[derive(Clone, Copy, Debug, PartialEq, Eq, Structural)]
pub struct SelectionTrack {
    pub last_idx: Option<usize>,
    pub last_len: Option<usize>,
}

/// Which handles change their mark after the list of names has changed.
#[derive(Debug, PartialEq, Eq)]
pub struct MarkChange {
    /// The handle that loses its mark.
    pub unmark: Option<usize>,
    /// The handles that gain a mark.
    pub mark: Vec<usize>,
}

impl SelectionTrack {
    /// Nothing marked, no list seen.
    pub fn new() -> (r: SelectionTrack)
        ensures
            r == (SelectionTrack { last_idx: None, last_len: None }),
    {
        SelectionTrack { last_idx: None, last_len: None }
    }

    /// The position named last in a list with the positions `idxs`, if the
    /// list holds a character at all.
    pub open spec fn newest(idxs: Seq<usize>, list_empty: bool) -> Option<usize> {
        if list_empty || idxs.len() == 0 {
            None
        } else {
            Some(idxs.last())
        }
    }

    /// The track after the list has changed to the positions `idxs`: the
    /// position named last is the one marked last, and the length of the
    /// first list seen is kept.
    pub open spec fn followed(self, idxs: Seq<usize>, list_empty: bool) -> SelectionTrack {
        SelectionTrack {
            last_idx: if SelectionTrack::newest(idxs, list_empty) != self.last_idx {
                SelectionTrack::newest(idxs, list_empty)
            } else {
                self.last_idx
            },
            last_len: match self.last_len {
                None => Some(idxs.len() as usize),
                seen => seen,
            },
        }
    }

    /// The handle that loses its mark when the list changes to `idxs`: the
    /// one marked last, if the position named last has changed and the list
    /// is no longer than the first list seen.
    pub open spec fn unmarked(self, idxs: Seq<usize>, list_empty: bool) -> Option<usize> {
        match (self.last_len, self.last_idx) {
            (Some(len), Some(i)) => if SelectionTrack::newest(idxs, list_empty) != self.last_idx
                && len >= idxs.len() {
                Some(i)
            } else {
                None
            },
            _ => None,
        }
    }

    /// The handles that gain a mark when the list changes to `idxs`, with
    /// `forms` shapes and `handles` handles on the canvas. If the position
    /// named last has changed, it is that position, if a shape stands there.
    /// If nothing was marked and nothing is named last, it is every position
    /// of the list that has both a shape and a handle.
    pub open spec fn marked(
        self,
        idxs: Seq<usize>,
        list_empty: bool,
        forms: usize,
        handles: usize,
    ) -> Seq<usize> {
        let newest = SelectionTrack::newest(idxs, list_empty);
        if newest != self.last_idx {
            match newest {
                Some(i) => if i < forms {
                    seq![i]
                } else {
                    Seq::empty()
                },
                None => Seq::empty(),
            }
        } else if self.last_idx is None {
            idxs.filter(|i: usize| i < forms && i < handles)
        } else {
            Seq::empty()
        }
    }

    /// Follows a change of the list of names to the positions `idxs`, and
    /// says which handles change their mark.
    pub fn follow(&mut self, idxs: &Vec<usize>, list_empty: bool, forms: usize, handles: usize) -> (r:
        MarkChange)
        ensures
            *final(self) == old(self).followed(idxs@, list_empty),
            r.unmark == old(self).unmarked(idxs@, list_empty),
            r.mark@ == old(self).marked(idxs@, list_empty, forms, handles),
    {
        let n: usize = idxs.len();
        let new_last: Option<usize> = if list_empty || n == 0 {
            None
        } else {
            Some(idxs[n - 1])
        };
        let changed: bool = match (new_last, self.last_idx) {
            (Some(a), Some(b)) => a != b,
            (None, None) => false,
            _ => true,
        };
        let mut unmark: Option<usize> = None;
        let mut mark: Vec<usize> = Vec::new();
        if changed {
            if let Some(len) = self.last_len {
                if len >= n {
                    unmark = self.last_idx;
                }
            }
            if let Some(i) = new_last {
                if i < forms {
                    mark.push(i);
                }
            }
        } else if self.last_idx.is_none() {
            let mut k: usize = 0;
            proof {
                reveal(Seq::filter);
                assert(idxs@.subrange(0, 0) =~= Seq::<usize>::empty());
            }
            while k < n
                invariant
                    0 <= k <= n,
                    n == idxs@.len(),
                    mark@ == idxs@.subrange(0, k as int).filter(
                        |i: usize| i < forms && i < handles,
                    ),
                decreases n - k,
            {
                let i: usize = idxs[k];
                proof {
                    reveal(Seq::filter);
                    let longer = idxs@.subrange(0, k + 1);
                    assert(longer.drop_last() =~= idxs@.subrange(0, k as int));
                    assert(longer.last() == i);
                }
                if i < forms && i < handles {
                    mark.push(i);
                }
                k = k + 1;
            }
            assert(idxs@.subrange(0, n as int) =~= idxs@);
        }
        if self.last_len.is_none() {
            self.last_len = Some(n);
        }
        if changed {
            self.last_idx = new_last;
        }
        MarkChange { unmark, mark }
    }
}

/// The outcome of typing one key into the canvas.
#[derive(Debug, PartialEq, Eq)]
pub enum KeyOutcome {
    /// The key finished a command.
    Finished(Command),
    /// A command is being typed.
    Open(CreateComFSM),
    /// No command was being typed and the key starts none.
    Rejected(char),
}

/// Types `key` into the command in progress, or opens a command with it if
/// there is none, with the reference point at `cursor`.
pub fn type_key(fsm: Option<CreateComFSM>, key: char, cursor: (u32, u32)) -> (r: KeyOutcome)
    ensures
        match fsm {
            Some(open) => match open@.step(key, cursor) {
                Ok(com) => r matches KeyOutcome::Finished(done) && done@ == com,
                Err(next) => r matches KeyOutcome::Open(after) && after@ == next,
            },
            None => match FsmView::leader(key) {
                Some(first) => r matches KeyOutcome::Open(after) && after@ == first,
                None => r == KeyOutcome::Rejected(key),
            },
        },
{
    match fsm {
        Some(open) => match open.advance(key, cursor) {
            Ok(com) => KeyOutcome::Finished(com),
            Err(next) => KeyOutcome::Open(next),
        },
        None => match CreateComFSM::new(key) {
            Ok(first) => KeyOutcome::Open(first),
            Err(c) => KeyOutcome::Rejected(c),
        },
    }
}

/// Whether `s` is a handle name: one or more lower-case letters.
pub open spec fn is_name(s: Seq<char>) -> bool {
    s.len() > 0 && forall|i: int| 0 <= i < s.len() ==> 'a' <= #[trigger] s[i] <= 'z'
}

/// The number a name stands for when its letters are read as digits to the
/// base 26, the first letter counting least and `a` being zero.
pub open spec fn index_of(s: Seq<char>) -> int
    decreases s.len(),
{
    if s.len() == 0 {
        0
    } else {
        (s[0] as int - 'a' as int) + 26 * index_of(s.drop_first())
    }
}

/// The name after `s`: the first letter steps on, and a `z` turns to `a`
/// and carries into the rest. A carry out of the last letter adds a letter.
pub open spec fn successor(s: Seq<char>) -> Seq<char>
    decreases s.len(),
{
    if s.len() == 0 {
        seq!['a']
    } else if s[0] == 'z' {
        seq!['a'] + successor(s.drop_first())
    } else {
        seq![((s[0] as int + 1) as char)] + s.drop_first()
    }
}

/// How many names are shorter than `len` letters.
pub open spec fn shorter_names(len: nat) -> int
    decreases len,
{
    if len <= 1 {
        0
    } else {
        26 * (shorter_names((len - 1) as nat) + 1)
    }
}

/// The place of a name in the list of all names, shorter names first.
pub open spec fn ordinal(s: Seq<char>) -> int {
    shorter_names(s.len()) + index_of(s)
}

/// The successor of a name is a name.
pub proof fn lemma_successor_is_name(s: Seq<char>)
    requires
        s.len() == 0 || is_name(s),
    ensures
        is_name(successor(s)),
        successor(s).len() == s.len() || successor(s).len() == s.len() + 1,
    decreases s.len(),
{
    if s.len() == 0 {
    } else if s[0] == 'z' {
        let rest = s.drop_first();
        assert forall|i: int| 0 <= i < rest.len() implies 'a' <= #[trigger] rest[i] <= 'z' by {
            assert(rest[i] == s[i + 1]);
        }
        lemma_successor_is_name(rest);
        let next = successor(s);
        assert forall|i: int| 0 <= i < next.len() implies 'a' <= #[trigger] next[i] <= 'z' by {
            if i > 0 {
                assert(next[i] == successor(rest)[i - 1]);
            }
        }
    } else {
        let next = successor(s);
        assert forall|i: int| 0 <= i < next.len() implies 'a' <= #[trigger] next[i] <= 'z' by {
            if i > 0 {
                assert(next[i] == s[i]);
            }
        }
    }
}

/// The successor of a name is the next name in the list of all names.
pub proof fn lemma_successor_is_next(s: Seq<char>)
    requires
        is_name(s),
    ensures
        ordinal(successor(s)) == ordinal(s) + 1,
    decreases s.len(),
{
    let rest = s.drop_first();
    if s[0] == 'z' {
        let next = successor(s);
        assert(next.drop_first() == successor(rest));
        assert(next[0] == 'a');
        if rest.len() == 0 {
            assert(successor(rest) == seq!['a']);
            assert(index_of(successor(rest)) == 0) by {
                reveal_with_fuel(index_of, 3);
            }
            assert(index_of(rest) == 0);
            assert(shorter_names(2) == 26) by {
                reveal_with_fuel(shorter_names, 3);
            }
        } else {
            assert forall|i: int| 0 <= i < rest.len() implies 'a' <= #[trigger] rest[i] <= 'z' by {
                assert(rest[i] == s[i + 1]);
            }
            lemma_successor_is_name(rest);
            lemma_successor_is_next(rest);
        }
    } else {
        let next = successor(s);
        assert(next.drop_first() == rest);
    }
}

/// The value of a name is at least the value of each of its endings.
pub proof fn lemma_index_of_suffix(s: Seq<char>, from: int)
    requires
        0 <= from <= s.len(),
        forall|i: int| 0 <= i < s.len() ==> 'a' <= #[trigger] s[i],
    ensures
        0 <= index_of(s.subrange(from, s.len() as int)) <= index_of(s),
    decreases from,
{
    let n = s.len() as int;
    if from == 0 {
        assert(s.subrange(0, n) == s);
        lemma_index_of_nonnegative(s);
    } else {
        lemma_index_of_suffix(s, from - 1);
        let longer = s.subrange(from - 1, n);
        assert(longer.drop_first() == s.subrange(from, n));
        assert(longer[0] == s[from - 1]);
        lemma_index_of_nonnegative(s.subrange(from, n));
    }
}

/// The value of letters from `a` upwards is never negative.
pub proof fn lemma_index_of_nonnegative(s: Seq<char>)
    requires
        forall|i: int| 0 <= i < s.len() ==> 'a' <= #[trigger] s[i],
    ensures
        0 <= index_of(s),
    decreases s.len(),
{
    if s.len() > 0 {
        let rest = s.drop_first();
        assert forall|i: int| 0 <= i < rest.len() implies 'a' <= #[trigger] rest[i] by {
            assert(rest[i] == s[i + 1]);
        }
        lemma_index_of_nonnegative(rest);
    }
}

/// How many characters of `s` stand before its first comma.
pub open spec fn first_comma(s: Seq<char>) -> int
    decreases s.len(),
{
    if s.len() == 0 || s[0] == ',' {
        0
    } else {
        1 + first_comma(s.drop_first())
    }
}

/// The names listed in `s`: the runs of characters between commas, in
/// order, empty runs left out.
pub open spec fn listed_names(s: Seq<char>) -> Seq<Seq<char>>
    decreases s.len(),
{
    let end = first_comma(s);
    if s.len() == 0 || end < 0 || end > s.len() {
        Seq::empty()
    } else {
        let rest = if end < s.len() {
            listed_names(s.subrange(end + 1, s.len() as int))
        } else {
            Seq::empty()
        };
        if end > 0 {
            seq![s.subrange(0, end)] + rest
        } else {
            rest
        }
    }
}

/// Whether the value of `name` can be told: every letter is `a` or later and
/// the value fits a `usize`.
pub open spec fn has_index(name: Seq<char>) -> bool {
    index_of(name) <= usize::MAX && forall|k: int| 0 <= k < name.len() ==> 'a' <= #[trigger] name[k]
}

/// `first_comma` finds the first comma, or the end.
pub proof fn lemma_first_comma(s: Seq<char>, at: int)
    requires
        0 <= at <= s.len(),
        forall|k: int| 0 <= k < at ==> s[k] != ',',
        at < s.len() ==> s[at] == ',',
    ensures
        first_comma(s) == at,
    decreases s.len(),
{
    if s.len() > 0 && s[0] != ',' {
        let rest = s.drop_first();
        assert forall|k: int| 0 <= k < at - 1 implies rest[k] != ',' by {
            assert(rest[k] == s[k + 1]);
        }
        lemma_first_comma(rest, at - 1);
    }
}

/// Hands out the names of the handles, one after the other.
#[derive(Debug)]
pub struct Namer {
    cur_name: Vec<char>,
}

impl Clone for Namer {
    fn clone(&self) -> (r: Namer)
        ensures
            r.name() == self.name(),
    {
        proof {
            use_type_invariant(self);
        }
        let cur_name: Vec<char> = self.cur_name.clone();
        assert(cur_name@ == self.cur_name@);
        Namer { cur_name }
    }
}

impl Namer {
    /// The name that is handed out next.
    pub closed spec fn name(&self) -> Seq<char> {
        self.cur_name@
    }

    #[verifier::type_invariant]
    spec fn inv(&self) -> bool {
        is_name(self.cur_name@)
    }

    /// The value of `name`, if every letter is `a` or later and the value
    /// fits a `usize`.
    pub fn checked_index(name: &str) -> (r: Option<usize>)
        ensures
            match r {
                Some(i) => i == index_of(name@) && forall|k: int|
                    0 <= k < name@.len() ==> 'a' <= #[trigger] name@[k],
                None => index_of(name@) > usize::MAX || exists|k: int|
                    0 <= k < name@.len() && 'a' > #[trigger] name@[k],
            },
    {
        let n: usize = name.unicode_len();
        let mut acc: usize = 0;
        let mut i: usize = n;
        assert(name@.subrange(n as int, n as int).len() == 0);
        while i > 0
            invariant
                0 <= i <= n,
                n == name@.len(),
                acc == index_of(name@.subrange(i as int, n as int)),
                forall|k: int| i <= k < n ==> 'a' <= #[trigger] name@[k],
            decreases i,
        {
            let c: char = name.get_char(i - 1);
            if 'a' > c {
                return None;
            }
            let d: usize = (c as u32 - 'a' as u32) as usize;
            let ghost longer = name@.subrange(i - 1, n as int);
            proof {
                assert(longer.drop_first() == name@.subrange(i as int, n as int));
                assert(longer[0] == c);
                assert(index_of(longer) == d + 26 * acc);
                if d + 26 * acc > usize::MAX {
                    if exists|k: int| 0 <= k < name@.len() && 'a' > #[trigger] name@[k] {
                    } else {
                        lemma_index_of_suffix(name@, i - 1);
                    }
                }
            }
            let scaled: usize = match acc.checked_mul(26) {
                Some(v) => v,
                None => {
                    return None;
                },
            };
            acc = match scaled.checked_add(d) {
                Some(v) => v,
                None => {
                    return None;
                },
            };
            i = i - 1;
        }
        assert(name@.subrange(0, n as int) == name@);
        Some(acc)
    }

    /// The positions of the handles named in `com`, a list of names with
    /// commas between them. There is no answer if the value of one of the
    /// names cannot be told.
    pub fn selected_indices(com: &str) -> (r: Option<Vec<usize>>)
        ensures
            match r {
                Some(idxs) => {
                    &&& idxs@.len() == listed_names(com@).len()
                    &&& forall|k: int|
                        0 <= k < idxs@.len() ==> has_index(#[trigger] listed_names(com@)[k])
                            && idxs@[k] == index_of(listed_names(com@)[k])
                },
                None => exists|k: int|
                    0 <= k < listed_names(com@).len() && !has_index(
                        #[trigger] listed_names(com@)[k],
                    ),
            },
    {
        let n: usize = com.unicode_len();
        let mut idxs: Vec<usize> = Vec::new();
        let mut from: usize = 0;
        let mut i: usize = 0;
        let ghost all = listed_names(com@);
        assert(com@.subrange(0, n as int) == com@);
        while i < n
            invariant
                0 <= from <= i <= n,
                n == com@.len(),
                all == listed_names(com@),
                forall|k: int| from <= k < i ==> com@[k] != ',',
                all.len() == idxs@.len() + listed_names(com@.subrange(from as int, n as int)).len(),
                forall|k: int|
                    0 <= k < idxs@.len() ==> has_index(#[trigger] all[k]) && idxs@[k] == index_of(
                        all[k],
                    ),
                forall|k: int|
                    idxs@.len() <= k < all.len() ==> (#[trigger] all[k]) == listed_names(
                        com@.subrange(from as int, n as int),
                    )[k - idxs@.len()],
            decreases n - i,
        {
            if com.get_char(i) == ',' {
                let ghost tail = com@.subrange(from as int, n as int);
                proof {
                    lemma_first_comma(tail, i - from);
                    assert(tail.subrange(i - from + 1, tail.len() as int) == com@.subrange(
                        i + 1,
                        n as int,
                    ));
                    assert(tail.subrange(0, i - from) == com@.subrange(from as int, i as int));
                }
                if i > from {
                    let name = com.substring_char(from, i);
                    assert(all[idxs@.len() as int] == name@);
                    match Namer::checked_index(name) {
                        Some(idx) => {
                            idxs.push(idx);
                        },
                        None => {
                            assert(!has_index(all[idxs@.len() as int]));
                            return None;
                        },
                    }
                }
                from = i + 1;
            }
            i = i + 1;
        }
        let ghost tail = com@.subrange(from as int, n as int);
        proof {
            lemma_first_comma(tail, n - from);
            assert(tail.subrange(0, n - from) == tail);
        }
        if n > from {
            let name = com.substring_char(from, n);
            assert(all[idxs@.len() as int] == name@);
            match Namer::checked_index(name) {
                Some(idx) => {
                    idxs.push(idx);
                },
                None => {
                    assert(!has_index(all[idxs@.len() as int]));
                    return None;
                },
            }
        }
        Some(idxs)
    }

    /// The value of `name`: the position of the handle it names.
    pub fn get_index(name: &str) -> (r: usize)
        requires
            forall|k: int| 0 <= k < name@.len() ==> 'a' <= #[trigger] name@[k],
            index_of(name@) <= usize::MAX,
        ensures
            r == index_of(name@),
    {
        match Namer::checked_index(name) {
            Some(i) => i,
            None => 0,
        }
    }

    /// A namer that starts at `a`.
    pub fn new() -> (r: Namer)
        ensures
            r.name() == seq!['a'],
    {
        let mut cur_name: Vec<char> = Vec::new();
        cur_name.push('a');
        Namer { cur_name }
    }

    fn inc_internal(name: &mut Vec<char>, idx: usize)
        requires
            is_name(old(name)@),
            idx <= old(name)@.len(),
        ensures
            final(name)@ == old(name)@.subrange(0, idx as int) + successor(
                old(name)@.subrange(idx as int, old(name)@.len() as int),
            ),
        decreases old(name)@.len() - idx,
    {
        let ghost before = name@;
        let ghost tail = before.subrange(idx as int, before.len() as int);
        if name.len() > idx {
            let c: char = name[idx];
            assert(tail[0] == c);
            if c == 'z' {
                name.set(idx, 'a');
                Namer::inc_internal(name, idx + 1);
                assert(name@ == before.subrange(0, idx as int) + successor(tail)) by {
                    let reset = before.update(idx as int, 'a');
                    assert(reset.subrange(0, idx + 1) == before.subrange(0, idx as int).push('a'));
                    assert(reset.subrange(idx + 1, reset.len() as int) == tail.drop_first());
                }
            } else {
                name.set(idx, ((c as u8) + 1) as char);
                assert(name@ == before.subrange(0, idx as int) + successor(tail));
            }
        } else {
            name.push('a');
            assert(tail.len() == 0);
            assert(name@ == before.subrange(0, idx as int) + successor(tail));
        }
    }

    /// Steps to the next name.
    pub fn inc(&mut self)
        ensures
            final(self).name() == successor(old(self).name()),
    {
        proof {
            use_type_invariant(&*self);
            lemma_successor_is_name(self.cur_name@);
        }
        let mut name: Vec<char> = self.cur_name.clone();
        assert(name@ == self.cur_name@);
        assert(name@.subrange(0, name@.len() as int) == name@);
        Namer::inc_internal(&mut name, 0);
        self.cur_name = name;
    }

    /// Hands out the current name and steps to the next one.
    pub fn next_name(&mut self) -> (r: String)
        ensures
            r@ == old(self).name(),
            final(self).name() == successor(old(self).name()),
            ordinal(final(self).name()) == ordinal(old(self).name()) + 1,
    {
        proof {
            use_type_invariant(&*self);
            lemma_successor_is_next(self.name());
        }
        let mut ret = String::new();
        let n: usize = self.cur_name.len();
        let mut i: usize = 0;
        while i < n
            invariant
                0 <= i <= n,
                n == self.cur_name@.len(),
                ret@ == self.cur_name@.subrange(0, i as int),
            decreases n - i,
        {
            ret.push(self.cur_name[i]);
            assert(self.cur_name@.subrange(0, i + 1) == self.cur_name@.subrange(0, i as int).push(
                self.cur_name@[i as int],
            ));
            i = i + 1;
        }
        assert(self.cur_name@.subrange(0, n as int) == self.cur_name@);
        self.inc();
        ret
    }

    /// Starts over at `a`.
    pub fn clear(&mut self)
        ensures
            final(self).name() == seq!['a'],
    {
        let mut cur_name: Vec<char> = Vec::new();
        cur_name.push('a');
        self.cur_name = cur_name;
    }
}

} // verus!

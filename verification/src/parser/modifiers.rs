//! The three modifier flags a command can carry.

use vstd::prelude::*;

verus! {

/// A flag that changes how a finished command is carried out.
#[derive(Clone, Copy, Debug, PartialEq, Eq, Structural)]
pub enum ModifierType {
    /// Move the reference point to the resolved endpoint afterwards.
    MoveCursor,
    /// Stop at the first collision along the path.
    Collide,
    /// Treat the resolved point as the midpoint of the shape.
    CursorIsMiddle,
}

/// The modifier a key selects.
pub open spec fn modifier_of(c: char) -> Option<ModifierType> {
    if c == 'm' {
        Some(ModifierType::CursorIsMiddle)
    } else if c == 'c' {
        Some(ModifierType::Collide)
    } else if c == 'o' {
        Some(ModifierType::MoveCursor)
    } else {
        None
    }
}

impl ModifierType {
    /// The position of this flag's bit.
    pub open spec fn index(self) -> u8 {
        match self {
            ModifierType::MoveCursor => 0u8,
            ModifierType::Collide => 1u8,
            ModifierType::CursorIsMiddle => 2u8,
        }
    }

    /// The position of this flag's bit.
    pub fn bit(&self) -> (i: u8)
        ensures
            i == self.index(),
    {
        match self {
            ModifierType::MoveCursor => 0,
            ModifierType::Collide => 1,
            ModifierType::CursorIsMiddle => 2,
        }
    }

    /// Reads a modifier key; any other key is handed back.
    pub fn try_from(value: char) -> (r: Result<ModifierType, char>)
        ensures
            match r {
                Ok(m) => modifier_of(value) == Some(m),
                Err(c) => modifier_of(value) is None && c == value,
            },
    {
        if value == 'm' {
            Ok(ModifierType::CursorIsMiddle)
        } else if value == 'c' {
            Ok(ModifierType::Collide)
        } else if value == 'o' {
            Ok(ModifierType::MoveCursor)
        } else {
            Err(value)
        }
    }
}

/// A set of modifier flags, one bit each.
#[derive(Clone, Copy, Debug, PartialEq, Eq, Structural)]
pub struct Modifiers(u8);

/// Whether bit `i` of `bits` is set.
pub open spec fn bit_is_set(bits: u8, i: u8) -> bool {
    (bits >> i) & 1 == 1
}

/// `bits` with bit `i` set (`val`) or cleared (`!val`).
pub open spec fn bit_assigned(bits: u8, i: u8, val: bool) -> u8 {
    if val {
        bits | (1u8 << i)
    } else {
        bits & (255u8 ^ (1u8 << i))
    }
}

impl Modifiers {
    /// The flags as a bit pattern.
    pub closed spec fn bits(self) -> u8 {
        self.0
    }

    /// The set holding exactly the flags of the bit pattern `bits`.
    pub closed spec fn from_bits(bits: u8) -> Modifiers {
        Modifiers(bits)
    }

    /// The set without any flag.
    pub open spec fn empty() -> Modifiers {
        Modifiers::from_bits(0)
    }

    /// Whether flag `m` is set.
    pub open spec fn has(self, m: ModifierType) -> bool {
        bit_is_set(self.bits(), m.index())
    }

    /// This set with flag `m` added.
    pub open spec fn with(self, m: ModifierType) -> Modifiers {
        Modifiers::from_bits(bit_assigned(self.bits(), m.index(), true))
    }

    /// A set is its bit pattern: a set made from a pattern has that pattern,
    /// two sets with the same pattern are one set, and the empty set holds
    /// no flag.
    pub proof fn lemma_bits(a: Modifiers, b: Modifiers)
        ensures
            forall|bits: u8| #[trigger] Modifiers::from_bits(bits).bits() == bits,
            a.bits() == b.bits() ==> a == b,
            Modifiers::from_bits(a.bits()) == a,
            Modifiers::empty().bits() == 0,
            forall|m: ModifierType| !(#[trigger] Modifiers::empty().has(m)),
    {
        assert forall|m: ModifierType| !(#[trigger] Modifiers::empty().has(m)) by {
            let i = m.index();
            assert(!bit_is_set(0u8, i)) by (bit_vector)
                requires
                    i < 3,
            ;
        }
    }

    /// Adding a flag sets it, keeps every other flag, and changes nothing if
    /// the flag was already set.
    pub proof fn lemma_with(self, m: ModifierType)
        ensures
            self.with(m).has(m),
            forall|q: ModifierType| q != m ==> (#[trigger] self.with(m).has(q) == self.has(q)),
            self.has(m) ==> self.with(m) == self,
            self.with(m).with(m) == self.with(m),
    {
        let b = self.bits();
        let i = m.index();
        assert(i < 3);
        assert(bit_is_set(bit_assigned(b, i, true), i)) by (bit_vector)
            requires
                i < 3,
        ;
        assert forall|q: ModifierType| q != m implies (#[trigger] self.with(m).has(q)
            == self.has(q)) by {
            let j = q.index();
            assert(bit_is_set(bit_assigned(b, i, true), j) == bit_is_set(b, j)) by (bit_vector)
                requires
                    i < 3,
                    j < 3,
                    i != j,
            ;
        }
        assert(bit_is_set(b, i) ==> bit_assigned(b, i, true) == b) by (bit_vector)
            requires
                i < 3,
        ;
        assert(bit_assigned(bit_assigned(b, i, true), i, true) == bit_assigned(b, i, true))
            by (bit_vector)
            requires
                i < 3,
        ;
    }

    /// The empty set.
    pub fn new() -> (r: Modifiers)
        ensures
            r == Modifiers::empty(),
            forall|m: ModifierType| !r.has(m),
    {
        assert forall|m: ModifierType| !bit_is_set(0u8, #[trigger] m.index()) by {
            let i = m.index();
            assert(!bit_is_set(0u8, i)) by (bit_vector)
                requires
                    i < 3,
            ;
        }
        Modifiers(0)
    }

    /// The set with each flag as given.
    pub fn new_with_state(move_cursor: bool, collided: bool, cis_middle: bool) -> (r: Modifiers)
        ensures
            r.has(ModifierType::MoveCursor) == move_cursor,
            r.has(ModifierType::Collide) == collided,
            r.has(ModifierType::CursorIsMiddle) == cis_middle,
            r.bits() == (if move_cursor { 1int } else { 0int })
                + (if collided { 2int } else { 0int })
                + (if cis_middle { 4int } else { 0int }),
    {
        let b0: u8 = if move_cursor { 1 } else { 0 };
        let b1: u8 = if collided { 1 } else { 0 };
        let b2: u8 = if cis_middle { 1 } else { 0 };
        let state: u8 = b0 | (b1 << 1) | (b2 << 2);
        assert(bit_is_set(state, 0) == (b0 == 1) && bit_is_set(state, 1) == (b1 == 1)
            && bit_is_set(state, 2) == (b2 == 1) && state == b0 + 2 * b1 + 4 * b2)
            by (bit_vector)
            requires
                b0 <= 1,
                b1 <= 1,
                b2 <= 1,
                state == b0 | (b1 << 1) | (b2 << 2),
        ;
        Modifiers(state)
    }

    fn set_internal(&mut self, i: u8, val: bool)
        requires
            i < 8,
        ensures
            final(self).bits() == bit_assigned(old(self).bits(), i, val),
    {
        if val {
            self.0 = self.0 | (1u8 << i);
        } else {
            self.0 = self.0 & (255u8 ^ (1u8 << i));
        }
    }

    fn get_internal(&self, i: u8) -> (r: bool)
        requires
            i < 8,
        ensures
            r == bit_is_set(self.bits(), i),
    {
        (self.0 >> i) & 1 == 1
    }

    /// Whether the reference point follows the command.
    pub fn move_cursor(&self) -> (r: bool)
        ensures
            r == self.has(ModifierType::MoveCursor),
    {
        self.get_internal(0)
    }

    /// Whether the command stops at the first collision.
    pub fn collide(&self) -> (r: bool)
        ensures
            r == self.has(ModifierType::Collide),
    {
        self.get_internal(1)
    }

    /// Whether the resolved point is the midpoint of the shape.
    pub fn cursor_is_middle(&self) -> (r: bool)
        ensures
            r == self.has(ModifierType::CursorIsMiddle),
    {
        self.get_internal(2)
    }

    /// Adds flag `mod_type`. Flags are never removed.
    pub fn set(&mut self, mod_type: ModifierType)
        ensures
            *final(self) == old(self).with(mod_type),
    {
        self.set_internal(mod_type.bit(), true);
    }

    /// Whether flag `mod_type` is set.
    pub fn get(&self, mod_type: ModifierType) -> (r: bool)
        ensures
            r == self.has(mod_type),
    {
        self.get_internal(mod_type.bit())
    }
}

} // verus!

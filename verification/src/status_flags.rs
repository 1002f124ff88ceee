//! Bitmask-backed status flags per owner (things like Stunned or
//! Invulnerable), for fast lookup of the status of a given owner.
use vstd::prelude::*;

use crate::Owner;

verus! {

/// Raw storage of the status bitmask.
pub type StatusFlagsData = u64;

/// `m` has exactly one bit set.
pub open spec fn is_single_bit(m: u64) -> bool {
    m != 0 && m & ((m - 1) as u64) == 0
}

/// A flag that occupies a single bit of a `u64` bitmask.
pub trait FlagBitmask {
    /// The bit of this flag.
    spec fn spec_mask(&self) -> u64;

    /// The bit of this flag.
    fn mask(&self) -> (m: u64)
        ensures
            m == self.spec_mask(),
    ;

    /// Every flag occupies exactly one bit.
    proof fn lemma_single_bit(&self)
        ensures
            is_single_bit(self.spec_mask()),
    ;
}

/// The status flags an owner can carry.
#[derive(Debug, PartialEq, Eq, Structural, Clone, Copy)]
pub enum Status {
    Stunned,
    Invulnerable,
}

impl FlagBitmask for Status {
    open spec fn spec_mask(&self) -> u64 {
        match self {
            Status::Stunned => 1,
            Status::Invulnerable => 2,
        }
    }

    fn mask(&self) -> (m: u64) {
        match self {
            Status::Stunned => 1,
            Status::Invulnerable => 2,
        }
    }

    proof fn lemma_single_bit(&self) {
        assert(1u64 & 0u64 == 0) by (bit_vector);
        assert(2u64 & 1u64 == 0) by (bit_vector);
    }
}

/// The flag's bit is set in `bits`.
pub open spec fn bits_have<U: FlagBitmask>(bits: u64, tag: U) -> bool {
    bits & tag.spec_mask() == tag.spec_mask()
}

/// The union of the bits of all flags in `tags`.
pub open spec fn union_masks<U: FlagBitmask>(tags: Seq<U>) -> u64
    decreases tags.len(),
{
    if tags.len() == 0 {
        0
    } else {
        union_masks(tags.drop_last()) | tags.last().spec_mask()
    }
}

/// Stored status flags of an owner.
pub struct StatusFlags {
    pub owner: Owner,
    /// Raw bitmask.
    pub data: StatusFlagsData,
}

impl StatusFlags {
    /// Adds a single flag.
    pub fn add_tag<U: FlagBitmask>(&mut self, tag: U)
        ensures
            final(self).owner == old(self).owner,
            final(self).data == old(self).data | tag.spec_mask(),
    {
        self.data = self.data | tag.mask();
    }

    /// Removes a single flag.
    pub fn remove_tag<U: FlagBitmask>(&mut self, tag: U)
        ensures
            final(self).owner == old(self).owner,
            final(self).data == old(self).data & !tag.spec_mask(),
    {
        self.data = self.data & !tag.mask();
    }

    /// Returns true if the flag is set.
    pub fn has_tag<U: FlagBitmask>(&self, tag: U) -> (r: bool)
        ensures
            r == bits_have(self.data, tag),
    {
        let m = tag.mask();
        self.data & m == m
    }

    /// Adds all flags in `tags`.
    pub fn add_many_tags<U: FlagBitmask + Copy>(&mut self, tags: &[U])
        ensures
            final(self).owner == old(self).owner,
            final(self).data == old(self).data | union_masks(tags@),
    {
        let mut acc: u64 = 0;
        let mut i: usize = 0;
        while i < tags.len()
            invariant
                0 <= i <= tags@.len(),
                acc == union_masks(tags@.take(i as int)),
            decreases tags@.len() - i,
        {
            assert(tags@.take(i + 1).drop_last() == tags@.take(i as int));
            acc = acc | tags[i].mask();
            i = i + 1;
        }
        assert(tags@.take(tags@.len() as int) == tags@);
        self.data = self.data | acc;
    }

    /// Removes all flags in `tags`.
    pub fn remove_many_tags<U: FlagBitmask + Copy>(&mut self, tags: &[U])
        ensures
            final(self).owner == old(self).owner,
            final(self).data == old(self).data & !union_masks(tags@),
    {
        let mut acc: u64 = 0;
        let mut i: usize = 0;
        while i < tags.len()
            invariant
                0 <= i <= tags@.len(),
                acc == union_masks(tags@.take(i as int)),
            decreases tags@.len() - i,
        {
            assert(tags@.take(i + 1).drop_last() == tags@.take(i as int));
            acc = acc | tags[i].mask();
            i = i + 1;
        }
        assert(tags@.take(tags@.len() as int) == tags@);
        self.data = self.data & !acc;
    }

    /// Returns true if *all* flags in `tags` are set. Empty slice => true.
    pub fn has_all_tags<U: FlagBitmask + Copy>(&self, tags: &[U]) -> (r: bool)
        ensures
            r == (forall|j: int| 0 <= j < tags@.len() ==> bits_have(self.data, #[trigger] tags@[j])),
    {
        let mut i: usize = 0;
        while i < tags.len()
            invariant
                0 <= i <= tags@.len(),
                forall|j: int| 0 <= j < i ==> bits_have(self.data, #[trigger] tags@[j]),
            decreases tags@.len() - i,
        {
            let m = tags[i].mask();
            if self.data & m != m {
                return false;
            }
            i = i + 1;
        }
        true
    }

    /// Returns true if *any* flag in `tags` is set. Empty slice => false.
    pub fn has_any_tags<U: FlagBitmask + Copy>(&self, tags: &[U]) -> (r: bool)
        ensures
            r == (exists|j: int|
                0 <= j < tags@.len() && self.data & (#[trigger] tags@[j]).spec_mask() != 0),
    {
        let mut i: usize = 0;
        while i < tags.len()
            invariant
                0 <= i <= tags@.len(),
                forall|j: int| 0 <= j < i ==> self.data & (#[trigger] tags@[j]).spec_mask() == 0,
            decreases tags@.len() - i,
        {
            if self.data & tags[i].mask() != 0 {
                return true;
            }
            i = i + 1;
        }
        false
    }

    /// Clears all flags.
    pub fn clear_tags(&mut self)
        ensures
            final(self).owner == old(self).owner,
            final(self).data == 0,
    {
        self.data = 0;
    }
}

/// Every listed flag's bit is inside the union of the listed bits.
proof fn lemma_union_covers<U: FlagBitmask>(tags: Seq<U>, j: int)
    requires
        0 <= j < tags.len(),
    ensures
        tags[j].spec_mask() & union_masks(tags) == tags[j].spec_mask(),
    decreases tags.len(),
{
    let m = tags[j].spec_mask();
    let rest = union_masks(tags.drop_last());
    let last = tags.last().spec_mask();
    if j == tags.len() - 1 {
        assert(m & (rest | m) == m) by (bit_vector);
    } else {
        lemma_union_covers(tags.drop_last(), j);
        assert(tags.drop_last()[j] == tags[j]);
        assert(m & (rest | last) == m) by (bit_vector)
            requires
                m & rest == m,
        ;
    }
}

/// Adding a flag makes it set.
pub proof fn law_add_then_has<U: FlagBitmask>(bits: u64, tag: U)
    ensures
        bits_have(bits | tag.spec_mask(), tag),
{
    let m = tag.spec_mask();
    assert((bits | m) & m == m) by (bit_vector);
}

/// Removing a flag makes it unset.
pub proof fn law_remove_then_not_has<U: FlagBitmask>(bits: u64, tag: U)
    ensures
        !bits_have(bits & !tag.spec_mask(), tag),
{
    tag.lemma_single_bit();
    let m = tag.spec_mask();
    assert((bits & !m) & m != m) by (bit_vector)
        requires
            m != 0,
    ;
}

/// Adding or removing one flag leaves every flag with another bit as it was.
pub proof fn law_other_flags_unchanged<U: FlagBitmask, V: FlagBitmask>(bits: u64, tag: U, other: V)
    requires
        tag.spec_mask() != other.spec_mask(),
    ensures
        bits_have(bits | tag.spec_mask(), other) == bits_have(bits, other),
        bits_have(bits & !tag.spec_mask(), other) == bits_have(bits, other),
{
    tag.lemma_single_bit();
    other.lemma_single_bit();
    let a = tag.spec_mask();
    let b = other.spec_mask();
    assert(((bits | a) & b == b) == (bits & b == b) && ((bits & !a) & b == b) == (bits & b == b))
        by (bit_vector)
        requires
            a != 0,
            a & ((a - 1) as u64) == 0,
            b != 0,
            b & ((b - 1) as u64) == 0,
            a != b,
    ;
}

/// Adding a flag twice is the same as adding it once, and removing after
/// adding is the same as removing.
pub proof fn law_add_idempotent_remove_undoes<U: FlagBitmask>(bits: u64, tag: U)
    ensures
        (bits | tag.spec_mask()) | tag.spec_mask() == bits | tag.spec_mask(),
        (bits | tag.spec_mask()) & !tag.spec_mask() == bits & !tag.spec_mask(),
{
    let m = tag.spec_mask();
    assert((bits | m) | m == bits | m) by (bit_vector);
    assert((bits | m) & !m == bits & !m) by (bit_vector);
}

/// After adding many flags, all of them are set.
pub proof fn law_add_many_then_has_all<U: FlagBitmask>(bits: u64, tags: Seq<U>)
    ensures
        forall|j: int| 0 <= j < tags.len() ==> bits_have(bits | union_masks(tags), #[trigger] tags[j]),
{
    assert forall|j: int| 0 <= j < tags.len() implies bits_have(
        bits | union_masks(tags),
        #[trigger] tags[j],
    ) by {
        lemma_union_covers(tags, j);
        let m = tags[j].spec_mask();
        let u = union_masks(tags);
        assert((bits | u) & m == m) by (bit_vector)
            requires
                m & u == m,
        ;
    }
}

/// After removing many flags, none of them is set.
pub proof fn law_remove_many_then_has_none<U: FlagBitmask>(bits: u64, tags: Seq<U>)
    ensures
        forall|j: int|
            0 <= j < tags.len() ==> (bits & !union_masks(tags)) & (#[trigger] tags[j]).spec_mask()
                == 0,
{
    assert forall|j: int| 0 <= j < tags.len() implies (bits & !union_masks(tags)) & (
    #[trigger] tags[j]).spec_mask() == 0 by {
        lemma_union_covers(tags, j);
        let m = tags[j].spec_mask();
        let u = union_masks(tags);
        assert((bits & !u) & m == 0) by (bit_vector)
            requires
                m & u == m,
        ;
    }
}

/// For a single flag, "any set" and "set" agree, and a cleared mask has no
/// flag set.
pub proof fn law_any_of_one_is_has<U: FlagBitmask>(bits: u64, tag: U)
    ensures
        (bits & tag.spec_mask() != 0) == bits_have(bits, tag),
        0u64 & tag.spec_mask() == 0,
{
    tag.lemma_single_bit();
    let m = tag.spec_mask();
    assert((bits & m != 0) == (bits & m == m)) by (bit_vector)
        requires
            m != 0,
            m & ((m - 1) as u64) == 0,
    ;
    assert(0u64 & m == 0) by (bit_vector);
}

/// Adding many flags sets exactly their bits: a single bit lies in the union
/// of the listed flags' bits exactly when some listed flag occupies it, so
/// adding many flags sets no other bit and removing many clears no other
/// bit.
pub proof fn law_union_is_exactly_the_listed_bits<U: FlagBitmask>(tags: Seq<U>, b: u64)
    requires
        is_single_bit(b),
    ensures
        (union_masks(tags) & b != 0) <==> (exists|j: int|
            0 <= j < tags.len() && (#[trigger] tags[j]).spec_mask() == b),
    decreases tags.len(),
{
    if tags.len() == 0 {
        assert(0u64 & b == 0) by (bit_vector);
    } else {
        let rest = tags.drop_last();
        law_union_is_exactly_the_listed_bits(rest, b);
        let u = union_masks(rest);
        let m = tags.last().spec_mask();
        tags.last().lemma_single_bit();
        assert(((u | m) & b != 0) == ((u & b != 0) || m == b)) by (bit_vector)
            requires
                b != 0,
                b & ((b - 1) as u64) == 0,
                m != 0,
                m & ((m - 1) as u64) == 0,
        ;
        if exists|j: int| 0 <= j < rest.len() && (#[trigger] rest[j]).spec_mask() == b {
            let j = choose|j: int| 0 <= j < rest.len() && (#[trigger] rest[j]).spec_mask() == b;
            assert(tags[j] == rest[j]);
        }
        if exists|j: int| 0 <= j < tags.len() && (#[trigger] tags[j]).spec_mask() == b {
            let j = choose|j: int| 0 <= j < tags.len() && (#[trigger] tags[j]).spec_mask() == b;
            if j < rest.len() {
                assert(rest[j] == tags[j]);
            }
        }
    }
}

} // verus!

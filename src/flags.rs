use vstd::prelude::*;

verus! {

/// The flags that carry a name in this protocol.
#[derive(Debug, Clone, Copy, PartialEq, Eq, Structural)]
pub enum Flags {
    /// Bit 0: no further data frames follow on the stream.
    EndStream,
    /// Bit 2: no continuation frames follow the header block.
    EndHeaders,
}

/// The bit that stands for a flag in the flags byte.
pub open spec fn flag_bit(f: Flags) -> u8 {
    match f {
        Flags::EndStream => 1,
        Flags::EndHeaders => 4,
    }
}

/// The bits of the flags byte that have a name.
pub const NAMED_FLAG_BITS: u8 = 5;

/// A set of named flags, held as the bits they occupy in the flags byte.
#[derive(Debug, Clone, Copy, PartialEq, Eq, Structural)]
pub struct FlagSet {
    bits: u8,
}

/// The named flags whose bit is set in `b`.
pub open spec fn flags_in(b: u8) -> Set<Flags> {
    Set::new(|f: Flags| b & flag_bit(f) != 0)
}

impl View for FlagSet {
    type V = Set<Flags>;

    closed spec fn view(&self) -> Set<Flags> {
        flags_in(self.bits)
    }
}

impl FlagSet {
    /// Only named bits are ever set.
    pub closed spec fn wf(self) -> bool {
        self.bits & !NAMED_FLAG_BITS == 0
    }

    /// The flags byte that this set is written as.
    pub closed spec fn spec_bits(self) -> u8 {
        self.bits
    }

    /// The empty set.
    pub fn empty() -> (r: FlagSet)
        ensures
            r.wf(),
            r@ == Set::<Flags>::empty(),
            r.spec_bits() == 0,
    {
        let r = FlagSet { bits: 0 };
        assert(0u8 & !5u8 == 0) by (bit_vector);
        assert(r@ =~= Set::<Flags>::empty()) by {
            assert(0u8 & 1u8 == 0 && 0u8 & 4u8 == 0) by (bit_vector);
        }
        r
    }

    /// The set holding `f` alone.
    pub fn only(f: Flags) -> (r: FlagSet)
        ensures
            r.wf(),
            r@ == Set::<Flags>::empty().insert(f),
            r.spec_bits() == flag_bit(f),
    {
        let bits: u8 = match f {
            Flags::EndStream => 1,
            Flags::EndHeaders => 4,
        };
        proof {
            assert(1u8 & !5u8 == 0 && 4u8 & !5u8 == 0) by (bit_vector);
            assert(1u8 & 1u8 != 0 && 1u8 & 4u8 == 0 && 4u8 & 1u8 == 0 && 4u8 & 4u8 != 0)
                by (bit_vector);
        }
        let r = FlagSet { bits };
        assert(r@ =~= Set::<Flags>::empty().insert(f));
        r
    }

    /// Reads a flags byte of any value: the bits without a name are dropped.
    pub fn from_u8_truncated(b: u8) -> (r: FlagSet)
        ensures
            r.wf(),
            r@ == flags_in(b),
            r.spec_bits() == b & NAMED_FLAG_BITS,
    {
        let bits = b & NAMED_FLAG_BITS;
        proof {
            assert(bits & !5u8 == 0) by (bit_vector)
                requires bits == b & 5u8;
            assert((bits & 1u8 != 0) == (b & 1u8 != 0) && (bits & 4u8 != 0) == (b & 4u8 != 0))
                by (bit_vector)
                requires bits == b & 5u8;
        }
        let r = FlagSet { bits };
        assert(r@ =~= flags_in(b));
        r
    }

    /// The flags byte this set is written as.
    pub fn as_u8(self) -> (r: u8)
        ensures
            r == self.spec_bits(),
    {
        self.bits
    }

    /// Whether `f` is in the set.
    pub fn contains(self, f: Flags) -> (r: bool)
        ensures
            r == self@.contains(f),
    {
        match f {
            Flags::EndStream => self.bits & 1 != 0,
            Flags::EndHeaders => self.bits & 4 != 0,
        }
    }

    /// The set holding the flags of both `self` and `other`.
    pub fn union(self, other: FlagSet) -> (r: FlagSet)
        requires
            self.wf(),
            other.wf(),
        ensures
            r.wf(),
            r@ == self@.union(other@),
            r.spec_bits() == self.spec_bits() | other.spec_bits(),
    {
        let a = self.bits;
        let b = other.bits;
        let bits = a | b;
        proof {
            assert(bits & !5u8 == 0) by (bit_vector)
                requires bits == a | b, a & !5u8 == 0, b & !5u8 == 0;
            assert((bits & 1u8 != 0) == (a & 1u8 != 0 || b & 1u8 != 0)
                && (bits & 4u8 != 0) == (a & 4u8 != 0 || b & 4u8 != 0))
                by (bit_vector)
                requires bits == a | b;
        }
        let r = FlagSet { bits };
        assert(r@ =~= self@.union(other@));
        r
    }
}

/// A set is exactly the named flags whose bits its byte holds, and a
/// well-formed set's byte holds no other bit.
pub proof fn lemma_flags_byte_round_trip(s: FlagSet)
    ensures
        s@ == flags_in(s.spec_bits()),
        s.wf() <==> s.spec_bits() & !NAMED_FLAG_BITS == 0,
        s.wf() ==>
s.spec_bits() & NAMED_FLAG_BITS == s.spec_bits(),
{
    let b = s.spec_bits();
    if s.wf() {
        assert(b & 5u8 == b) by (bit_vector)
            requires b & !5u8 == 0;
    }
}

} // verus!

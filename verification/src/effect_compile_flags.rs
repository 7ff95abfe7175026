//! Options for compiling an effect, as a bit mask of the native ABI.

use vstd::prelude::*;

verus! {

/// Compile the effect as a child effect.
pub const CHILD_EFFECT: u32 = 0x1;

/// Allow operations that may run slowly.
pub const ALLOW_SLOW_OPS: u32 = 0x2;

/// Every bit that names an effect option.
pub const ALL: u32 = 0x3;

/// `ALL` holds the bits of the named options and no others.
pub proof fn lemma_all_is_union_of_named()
    ensures
        ALL == CHILD_EFFECT | ALLOW_SLOW_OPS,
{
    assert(0x3u32 == 0x1u32 | 0x2u32) by (bit_vector);
}

/// A set of effect options. A bit that is not set leaves the compiler's
/// default in place; a bit that names no option is never set.
#[derive(Clone, Copy, Debug, PartialEq, Eq, Structural)]
pub struct EffectCompileFlags {
    bits: u32,
}

impl View for EffectCompileFlags {
    type V = u32;

    /// The mask that is handed to the native call.
    closed spec fn view(&self) -> u32 {
        self.bits
    }
}

impl EffectCompileFlags {
    #[verifier::type_invariant]
    spec fn only_named_bits(&self) -> bool {
        self.bits & !ALL == 0
    }

    /// The set with no option.
    pub fn empty() -> (flags: Self)
        ensures
            flags@ == 0,
    {
        assert(0u32 & !0x3u32 == 0) by (bit_vector);
        EffectCompileFlags { bits: 0 }
    }

    /// The set with every option.
    pub fn all() -> (flags: Self)
        ensures
            flags@ == ALL,
    {
        assert(0x3u32 & !0x3u32 == 0) by (bit_vector);
        EffectCompileFlags { bits: ALL }
    }

    /// The mask that is handed to the native call. It holds no bit that
    /// names no option.
    pub fn bits(&self) -> (bits: u32)
        ensures
            bits == self@,
            bits & !ALL == 0,
    {
        proof {
            use_type_invariant(self);
        }
        self.bits
    }

    /// The set with exactly the bits of `bits`, unless one of them names no
    /// option.
    pub fn from_bits(bits: u32) -> (flags: Option<Self>)
        ensures
            flags is Some <==> bits & !ALL == 0,
            flags matches Some(f) ==> f@ == bits,
    {
        if bits & !ALL == 0 {
            Some(EffectCompileFlags { bits })
        } else {
            None
        }
    }

    /// The set with the bits of `bits` that name an option.
    pub fn from_bits_truncate(bits: u32) -> (flags: Self)
        ensures
            flags@ == bits & ALL,
    {
        assert((bits & 0x3u32) & !0x3u32 == 0) by (bit_vector);
        EffectCompileFlags { bits: bits & ALL }
    }

    /// Whether every option of `other` is in this set.
    pub fn contains(&self, other: Self) -> (b: bool)
        ensures
            b == (self@ & other@ == other@),
    {
        self.bits & other.bits == other.bits
    }

    /// The options of both sets.
    pub fn union(self, other: Self) -> (flags: Self)
        ensures
            flags@ == self@ | other@,
    {
        proof {
            use_type_invariant(&self);
            use_type_invariant(&other);
        }
        let a: u32 = self.bits;
        let b: u32 = other.bits;
        assert((a | b) & !0x3u32 == 0) by (bit_vector)
            requires
                a & !0x3u32 == 0,
                b & !0x3u32 == 0,
        ;
        EffectCompileFlags { bits: a | b }
    }
}

} // verus!

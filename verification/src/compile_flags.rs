//! General options of a compile call, as a bit mask of the native ABI.

use vstd::prelude::*;

verus! {

/// Insert debug information into the output.
pub const DEBUG: u32 = 0x1;

/// Do not validate the generated code against known capabilities.
pub const SKIP_VALIDATION: u32 = 0x2;

/// Skip the optimization steps.
pub const SKIP_OPTIMIZATION: u32 = 0x4;

/// Pack matrices in row-major order.
pub const PACK_MATRIX_ROW_MAJOR: u32 = 0x8;

/// Pack matrices in column-major order.
pub const PACK_MATRIX_COLUMN_MAJOR: u32 = 0x10;

/// Compute with partial precision.
pub const PARTIAL_PRECISION: u32 = 0x20;

/// Compile a vertex shader for the next highest profile, without optimization.
pub const FORCE_VS_SOFTWARE_NO_OPT: u32 = 0x40;

/// Compile a pixel shader for the next highest profile, without optimization.
pub const FORCE_PS_SOFTWARE_NO_OPT: u32 = 0x80;

/// Disable preshaders.
pub const NO_PRESHADER: u32 = 0x100;

/// Avoid flow-control constructs where possible.
pub const AVOID_FLOW_CONTROL: u32 = 0x200;

/// Prefer flow-control constructs where possible.
pub const PREFER_FLOW_CONTROL: u32 = 0x400;

/// Refuse legacy syntax.
pub const ENABLE_STRICTNESS: u32 = 0x800;

/// Accept the syntax of older shader models.
pub const ENABLE_BACKWARDS_COMPATIBILITY: u32 = 0x1000;

/// Keep to IEEE rules.
pub const IEEE_STRICTNESS: u32 = 0x2000;

/// The lowest optimization level.
pub const OPTIMIZATION_LEVEL0: u32 = 0x4000;

/// The second lowest optimization level: the default, which sets no bit.
pub const OPTIMIZATION_LEVEL1: u32 = 0x0;

/// The second highest optimization level.
pub const OPTIMIZATION_LEVEL2: u32 = 0xC000;

/// The highest optimization level.
pub const OPTIMIZATION_LEVEL3: u32 = 0x8000;

/// Treat every warning as an error.
pub const WARNINGS_ARE_ERRORS: u32 = 0x40000;

/// Assume that unordered-access views and shader resource views may alias.
pub const RESOURCES_MAY_ALIAS: u32 = 0x80000;

/// Enable unbounded descriptor tables.
pub const ENABLE_UNBOUNDED_DESCRIPTOR_TABLES: u32 = 0x100000;

/// Assume that all resources are bound.
pub const ALL_RESOURCES_BOUND: u32 = 0x200000;

/// Name the debug information after the hash of the source.
pub const DEBUG_NAME_FOR_SOURCE: u32 = 0x400000;

/// Name the debug information after the hash of the binary.
pub const DEBUG_NAME_FOR_BINARY: u32 = 0x800000;

/// Every bit that names a compile option.
pub const ALL: u32 = 0xFCFFFF;

/// `ALL` holds the bits of the named options and no others.
pub proof fn lemma_all_is_union_of_named()
    ensures
        ALL == DEBUG | SKIP_VALIDATION | SKIP_OPTIMIZATION | PACK_MATRIX_ROW_MAJOR
            | PACK_MATRIX_COLUMN_MAJOR | PARTIAL_PRECISION | FORCE_VS_SOFTWARE_NO_OPT
            | FORCE_PS_SOFTWARE_NO_OPT | NO_PRESHADER | AVOID_FLOW_CONTROL | PREFER_FLOW_CONTROL
            | ENABLE_STRICTNESS | ENABLE_BACKWARDS_COMPATIBILITY | IEEE_STRICTNESS
            | OPTIMIZATION_LEVEL0 | OPTIMIZATION_LEVEL1 | OPTIMIZATION_LEVEL2
            | OPTIMIZATION_LEVEL3 | WARNINGS_ARE_ERRORS | RESOURCES_MAY_ALIAS
            | ENABLE_UNBOUNDED_DESCRIPTOR_TABLES | ALL_RESOURCES_BOUND | DEBUG_NAME_FOR_SOURCE
            | DEBUG_NAME_FOR_BINARY,
        OPTIMIZATION_LEVEL2 == OPTIMIZATION_LEVEL0 | OPTIMIZATION_LEVEL3,
{
    assert(0xFCFFFFu32 == 0x1u32 | 0x2u32 | 0x4u32 | 0x8u32 | 0x10u32 | 0x20u32 | 0x40u32 | 0x80u32
        | 0x100u32 | 0x200u32 | 0x400u32 | 0x800u32 | 0x1000u32 | 0x2000u32 | 0x4000u32 | 0x0u32
        | 0xC000u32 | 0x8000u32 | 0x40000u32 | 0x80000u32 | 0x100000u32 | 0x200000u32
        | 0x400000u32 | 0x800000u32) by (bit_vector);
    assert(0xC000u32 == 0x4000u32 | 0x8000u32) by (bit_vector);
}

/// A set of compile options. A bit that is not set leaves the compiler's
/// default in place; a bit that names no option is never set.
#[derive(Clone, Copy, Debug, PartialEq, Eq, Structural)]
pub struct CompileFlags {
    bits: u32,
}

impl View for CompileFlags {
    type V = u32;

    /// The mask that is handed to the native call.
    closed spec fn view(&self) -> u32 {
        self.bits
    }
}

impl CompileFlags {
    #[verifier::type_invariant]
    spec fn only_named_bits(&self) -> bool {
        self.bits & !ALL == 0
    }

    /// The set with no option.
    pub fn empty() -> (flags: Self)
        ensures
            flags@ == 0,
    {
        assert(0u32 & !0xFCFFFFu32 == 0) by (bit_vector);
        CompileFlags { bits: 0 }
    }

    /// The set with every option.
    pub fn all() -> (flags: Self)
        ensures
            flags@ == ALL,
    {
        assert(0xFCFFFFu32 & !0xFCFFFFu32 == 0) by (bit_vector);
        CompileFlags { bits: ALL }
    }

    /// The mask that is handed to the native call. It holds no bit that
    /// names no option.
    pub fn bits(&self) -> (bits: u32)
        ensures
            bits == self@,
            bits & !ALL == 0,
    {
        proof {
            use_type_invariant(self);
        }
        self.bits
    }

    /// The set with exactly the bits of `bits`, unless one of them names no
    /// option.
    pub fn from_bits(bits: u32) -> (flags: Option<Self>)
        ensures
            flags is Some <==> bits & !ALL == 0,
            flags matches Some(f) ==> f@ == bits,
    {
        if bits & !ALL == 0 {
            Some(CompileFlags { bits })
        } else {
            None
        }
    }

    /// The set with the bits of `bits` that name an option.
    pub fn from_bits_truncate(bits: u32) -> (flags: Self)
        ensures
            flags@ == bits & ALL,
    {
        assert((bits & 0xFCFFFFu32) & !0xFCFFFFu32 == 0) by (bit_vector);
        CompileFlags { bits: bits & ALL }
    }

    /// Whether every option of `other` is in this set.
    pub fn contains(&self, other: Self) -> (b: bool)
        ensures
            b == (self@ & other@ == other@),
    {
        self.bits & other.bits == other.bits
    }

    /// The options of both sets.
    pub fn union(self, other: Self) -> (flags: Self)
        ensures
            flags@ == self@ | other@,
    {
        proof {
            use_type_invariant(&self);
            use_type_invariant(&other);
        }
        let a: u32 = self.bits;
        let b: u32 = other.bits;
        assert((a | b) & !0xFCFFFFu32 == 0) by (bit_vector)
            requires
                a & !0xFCFFFFu32 == 0,
                b & !0xFCFFFFu32 == 0,
        ;
        CompileFlags { bits: a | b }
    }
}

} // verus!

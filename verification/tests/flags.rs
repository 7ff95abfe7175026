use shader_marshal::{compile_flags, effect_compile_flags, CompileFlags, EffectCompileFlags};

#[test]
fn empty_sets_have_no_bits() {
    assert_eq!(CompileFlags::empty().bits(), 0);
    assert_eq!(EffectCompileFlags::empty().bits(), 0);
}

#[test]
fn compile_flag_bits_follow_the_native_abi() {
    assert_eq!(compile_flags::DEBUG, 1 << 0);
    assert_eq!(compile_flags::SKIP_VALIDATION, 1 << 1);
    assert_eq!(compile_flags::SKIP_OPTIMIZATION, 1 << 2);
    assert_eq!(compile_flags::PACK_MATRIX_ROW_MAJOR, 1 << 3);
    assert_eq!(compile_flags::PACK_MATRIX_COLUMN_MAJOR, 1 << 4);
    assert_eq!(compile_flags::PARTIAL_PRECISION, 1 << 5);
    assert_eq!(compile_flags::FORCE_VS_SOFTWARE_NO_OPT, 1 << 6);
    assert_eq!(compile_flags::FORCE_PS_SOFTWARE_NO_OPT, 1 << 7);
    assert_eq!(compile_flags::NO_PRESHADER, 1 << 8);
    assert_eq!(compile_flags::AVOID_FLOW_CONTROL, 1 << 9);
    assert_eq!(compile_flags::PREFER_FLOW_CONTROL, 1 << 10);
    assert_eq!(compile_flags::ENABLE_STRICTNESS, 1 << 11);
    assert_eq!(compile_flags::ENABLE_BACKWARDS_COMPATIBILITY, 1 << 12);
    assert_eq!(compile_flags::IEEE_STRICTNESS, 1 << 13);
    assert_eq!(compile_flags::OPTIMIZATION_LEVEL0, 1 << 14);
    assert_eq!(compile_flags::OPTIMIZATION_LEVEL1, 0);
    assert_eq!(compile_flags::OPTIMIZATION_LEVEL2, (1 << 14) | (1 << 15));
    assert_eq!(compile_flags::OPTIMIZATION_LEVEL3, 1 << 15);
    assert_eq!(compile_flags::WARNINGS_ARE_ERRORS, 1 << 18);
    assert_eq!(compile_flags::RESOURCES_MAY_ALIAS, 1 << 19);
    assert_eq!(compile_flags::ENABLE_UNBOUNDED_DESCRIPTOR_TABLES, 1 << 20);
    assert_eq!(compile_flags::ALL_RESOURCES_BOUND, 1 << 21);
    assert_eq!(compile_flags::DEBUG_NAME_FOR_SOURCE, 1 << 22);
    assert_eq!(compile_flags::DEBUG_NAME_FOR_BINARY, 1 << 23);
}

#[test]
fn effect_flag_bits_follow_the_native_abi() {
    assert_eq!(effect_compile_flags::CHILD_EFFECT, 1);
    assert_eq!(effect_compile_flags::ALLOW_SLOW_OPS, 2);
    assert_eq!(effect_compile_flags::ALL, 3);
}

#[test]
fn all_is_the_union_of_the_named_bits() {
    let named = [
        compile_flags::DEBUG,
        compile_flags::SKIP_VALIDATION,
        compile_flags::SKIP_OPTIMIZATION,
        compile_flags::PACK_MATRIX_ROW_MAJOR,
        compile_flags::PACK_MATRIX_COLUMN_MAJOR,
        compile_flags::PARTIAL_PRECISION,
        compile_flags::FORCE_VS_SOFTWARE_NO_OPT,
        compile_flags::FORCE_PS_SOFTWARE_NO_OPT,
        compile_flags::NO_PRESHADER,
        compile_flags::AVOID_FLOW_CONTROL,
        compile_flags::PREFER_FLOW_CONTROL,
        compile_flags::ENABLE_STRICTNESS,
        compile_flags::ENABLE_BACKWARDS_COMPATIBILITY,
        compile_flags::IEEE_STRICTNESS,
        compile_flags::OPTIMIZATION_LEVEL0,
        compile_flags::OPTIMIZATION_LEVEL1,
        compile_flags::OPTIMIZATION_LEVEL2,
        compile_flags::OPTIMIZATION_LEVEL3,
        compile_flags::WARNINGS_ARE_ERRORS,
        compile_flags::RESOURCES_MAY_ALIAS,
        compile_flags::ENABLE_UNBOUNDED_DESCRIPTOR_TABLES,
        compile_flags::ALL_RESOURCES_BOUND,
        compile_flags::DEBUG_NAME_FOR_SOURCE,
        compile_flags::DEBUG_NAME_FOR_BINARY,
    ];
    let union = named.iter().fold(0u32, |acc, bit| acc | bit);
    assert_eq!(union, compile_flags::ALL);
    assert_eq!(CompileFlags::all().bits(), 0x00fc_ffff);
    assert_eq!(EffectCompileFlags::all().bits(), 0x3);
}

#[test]
fn from_bits_refuses_unnamed_bits() {
    assert_eq!(
        CompileFlags::from_bits(compile_flags::DEBUG | compile_flags::SKIP_OPTIMIZATION)
            .map(|f| f.bits()),
        Some(0x5)
    );
    assert_eq!(CompileFlags::from_bits(1 << 16), None);
    assert_eq!(CompileFlags::from_bits(1 << 17), None);
    assert_eq!(CompileFlags::from_bits(1 << 24), None);
    assert_eq!(CompileFlags::from_bits(u32::MAX), None);
    assert_eq!(CompileFlags::from_bits(0), Some(CompileFlags::empty()));
    assert_eq!(EffectCompileFlags::from_bits(3).map(|f| f.bits()), Some(3));
    assert_eq!(EffectCompileFlags::from_bits(4), None);
}

#[test]
fn from_bits_truncate_drops_unnamed_bits() {
    assert_eq!(CompileFlags::from_bits_truncate(u32::MAX).bits(), 0x00fc_ffff);
    assert_eq!(CompileFlags::from_bits_truncate((1 << 16) | 1).bits(), 1);
    assert_eq!(EffectCompileFlags::from_bits_truncate(0xff).bits(), 3);
    assert_eq!(EffectCompileFlags::from_bits_truncate(6).bits(), 2);
}

#[test]
fn union_and_contains() {
    let debug = CompileFlags::from_bits_truncate(compile_flags::DEBUG);
    let strict = CompileFlags::from_bits_truncate(compile_flags::ENABLE_STRICTNESS);
    let both = debug.union(strict);
    assert_eq!(both.bits(), 0x801);
    assert!(both.contains(debug));
    assert!(both.contains(strict));
    assert!(!debug.contains(strict));
    assert!(!debug.contains(both));
    assert!(debug.contains(CompileFlags::empty()));
    assert!(CompileFlags::all().contains(both));
    assert_eq!(both.union(CompileFlags::empty()), both);

    let child = EffectCompileFlags::from_bits_truncate(effect_compile_flags::CHILD_EFFECT);
    let slow = EffectCompileFlags::from_bits_truncate(effect_compile_flags::ALLOW_SLOW_OPS);
    assert_eq!(child.union(slow), EffectCompileFlags::all());
    assert!(!child.contains(slow));
}

use hackc_compile::flags::{EnvFlags, HHBCFlags, ParserFlags};
use hackc_compile::option_flags::{FromAstFlags, HhvmFlags, LangFlags, Php7Flags, RepoFlags};

#[test]
fn env_flags_from_bits_accepts_known_bits() {
    let f = EnvFlags::from_bits(0b1_0101).unwrap();
    assert_eq!(f.bits(), 0b1_0101);
    assert!(f.contains(EnvFlags::IS_SYSTEMLIB));
    assert!(!f.contains(EnvFlags::IS_EVALED));
    assert!(f.contains(EnvFlags::FOR_DEBUGGER_EVAL));
    assert!(f.contains(EnvFlags::DISABLE_TOPLEVEL_ELABORATION));
}

#[test]
fn env_flags_from_bits_refuses_unknown_bits() {
    assert!(EnvFlags::from_bits(0b10_0000).is_none());
    assert!(EnvFlags::from_bits(0b1000_0001).is_none());
}

#[test]
fn env_flags_from_bits_truncate_drops_unknown_bits() {
    assert_eq!(EnvFlags::from_bits_truncate(0xff).bits(), 0b1_1111);
    assert_eq!(EnvFlags::all().bits(), 0b1_1111);
    assert_eq!(EnvFlags::empty().bits(), 0);
}

#[test]
fn env_flags_from_ocaml_int_takes_the_low_byte() {
    assert_eq!(EnvFlags::from_ocaml_int(3).unwrap().bits(), 3);
    assert_eq!(EnvFlags::from_ocaml_int(256 + 2).unwrap().bits(), 2);
    assert!(EnvFlags::from_ocaml_int(64).is_none());
    assert!(EnvFlags::from_ocaml_int(-1).is_none());
}

#[test]
fn insert_adds_flags() {
    let mut f = HHBCFlags::empty();
    f.insert(HHBCFlags::UVS);
    f.insert(HHBCFlags::ARRAY_PROVENANCE);
    assert_eq!(f.bits(), (1 << 1) | (1 << 13));
    assert!(f.contains(HHBCFlags::UVS | HHBCFlags::ARRAY_PROVENANCE));
    assert!(!f.contains(HHBCFlags::UVS | HHBCFlags::LTR_ASSIGN));
}

#[test]
fn bytecode_flags_split_into_three_option_sets() {
    let f = HHBCFlags::from_bits(
        HHBCFlags::UVS | HHBCFlags::AUTHORITATIVE | HHBCFlags::LOG_EXTERN_COMPILER_PERF,
    )
    .unwrap();
    assert_eq!(f.to_php7_flags().bits(), Php7Flags::UVS);
    assert_eq!(f.to_repo_flags().bits(), RepoFlags::AUTHORITATIVE);
    assert_eq!(f.to_hhvm_flags().bits(), HhvmFlags::LOG_EXTERN_COMPILER_PERF);
}

#[test]
fn every_bytecode_flag_reaches_an_option() {
    let f = HHBCFlags::all();
    assert_eq!(f.to_php7_flags().bits(), Php7Flags::all().bits());
    assert_eq!(f.to_hhvm_flags().bits(), HhvmFlags::all().bits());
    assert_eq!(f.to_repo_flags().bits(), RepoFlags::all().bits());
}

#[test]
fn empty_flags_convert_to_empty_options() {
    let f = HHBCFlags::empty();
    assert_eq!(f.to_php7_flags().bits(), 0);
    assert_eq!(f.to_hhvm_flags().bits(), 0);
    assert_eq!(f.to_repo_flags().bits(), 0);
    assert_eq!(ParserFlags::empty().to_lang_flags().bits(), 0);
    assert_eq!(EnvFlags::empty().to_from_ast_flags().bits(), 0);
}

#[test]
fn php7_flags_follow_ltr_assign() {
    let f = HHBCFlags::from_bits(HHBCFlags::LTR_ASSIGN).unwrap();
    let p = f.to_php7_flags();
    assert!(p.contains(Php7Flags::LTR_ASSIGN));
    assert!(!p.contains(Php7Flags::UVS));
}

#[test]
fn hhvm_flags_follow_each_bytecode_flag() {
    let pairs = [
        (HHBCFlags::ARRAY_PROVENANCE, HhvmFlags::ARRAY_PROVENANCE),
        (HHBCFlags::EMIT_CLS_METH_POINTERS, HhvmFlags::EMIT_CLS_METH_POINTERS),
        (HHBCFlags::EMIT_METH_CALLER_FUNC_POINTERS, HhvmFlags::EMIT_METH_CALLER_FUNC_POINTERS),
        (HHBCFlags::ENABLE_INTRINSICS_EXTENSION, HhvmFlags::ENABLE_INTRINSICS_EXTENSION),
        (HHBCFlags::FOLD_LAZY_CLASS_KEYS, HhvmFlags::FOLD_LAZY_CLASS_KEYS),
        (HHBCFlags::JIT_ENABLE_RENAME_FUNCTION, HhvmFlags::JIT_ENABLE_RENAME_FUNCTION),
        (HHBCFlags::LOG_EXTERN_COMPILER_PERF, HhvmFlags::LOG_EXTERN_COMPILER_PERF),
        (HHBCFlags::ENABLE_IMPLICIT_CONTEXT, HhvmFlags::ENABLE_IMPLICIT_CONTEXT),
    ];
    for (source, target) in pairs {
        let h = HHBCFlags::from_bits(source).unwrap().to_hhvm_flags();
        assert_eq!(h.bits(), target);
    }
}

#[test]
fn lang_flags_follow_parser_flags() {
    let f = ParserFlags::from_bits(
        ParserFlags::ENABLE_ENUM_CLASSES
            | ParserFlags::DISALLOW_INST_METH
            | ParserFlags::ENABLE_CLASS_LEVEL_WHERE_CLAUSES,
    )
    .unwrap();
    let l = f.to_lang_flags();
    assert_eq!(
        l.bits(),
        LangFlags::ENABLE_ENUM_CLASSES
            | LangFlags::DISALLOW_INST_METH
            | LangFlags::ENABLE_CLASS_LEVEL_WHERE_CLAUSES
    );
    assert!(!l.contains(LangFlags::CONST_DEFAULT_LAMBDA_ARGS));
}

#[test]
fn all_parser_flags_give_all_but_three_language_options() {
    let l = ParserFlags::all().to_lang_flags();
    let unset = LangFlags::CONST_DEFAULT_LAMBDA_ARGS
        | LangFlags::DISABLE_LEGACY_ATTRIBUTE_SYNTAX
        | LangFlags::DISABLE_LEGACY_SOFT_TYPEHINTS;
    assert_eq!(l.bits(), LangFlags::all().bits() & !unset);
}

#[test]
fn conversion_of_a_union_is_the_union_of_conversions() {
    let a = ParserFlags::from_bits(ParserFlags::ABSTRACT_STATIC_PROPS).unwrap();
    let b = ParserFlags::from_bits(ParserFlags::CONST_STATIC_PROPS).unwrap();
    let ab = ParserFlags::from_bits(a.bits() | b.bits()).unwrap();
    assert_eq!(
        ab.to_lang_flags().bits(),
        a.to_lang_flags().bits() | b.to_lang_flags().bits()
    );
}

#[test]
fn from_ast_flags_follow_env_flags() {
    let f = EnvFlags::from_bits(
        EnvFlags::IS_EVALED | EnvFlags::IS_SYSTEMLIB | EnvFlags::DISABLE_TOPLEVEL_ELABORATION,
    )
    .unwrap();
    let a = f.to_from_ast_flags();
    assert_eq!(a.bits(), FromAstFlags::IS_EVALED | FromAstFlags::IS_SYSTEMLIB);
    assert!(!a.contains(FromAstFlags::FOR_DEBUGGER_EVAL));
}

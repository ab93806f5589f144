use hackc_compile::compile_env::{
    decimal_string, fatal_op_for, FatalOp, NativeEnv, Prefix, RelativePath,
};
use hackc_compile::flags::{EnvFlags, HHBCFlags, ParserFlags};
use hackc_compile::option_flags::{HhvmFlags, LangFlags, Php7Flags, RepoFlags};
use hackc_compile::parser_options::create_parser_options;

fn native_env(emit_class_pointers: i32, check_int_overflow: i32) -> NativeEnv {
    NativeEnv {
        filepath: RelativePath { prefix: Prefix::Root, path: "a.php".to_string() },
        aliased_namespaces: String::new(),
        include_roots: String::new(),
        emit_class_pointers,
        check_int_overflow,
        hhbc_flags: HHBCFlags::from_bits(HHBCFlags::LTR_ASSIGN | HHBCFlags::FOLD_LAZY_CLASS_KEYS)
            .unwrap(),
        parser_flags: ParserFlags::from_bits(ParserFlags::ALLOW_UNSTABLE_FEATURES).unwrap(),
        flags: EnvFlags::empty(),
    }
}

#[test]
fn native_options_follow_the_native_env() {
    let o = native_env(2, -17).native_options();
    assert_eq!(o.hhvm_flags.bits(), HhvmFlags::FOLD_LAZY_CLASS_KEYS);
    assert_eq!(o.php7_flags.bits(), Php7Flags::LTR_ASSIGN);
    assert_eq!(o.repo_flags.bits(), 0);
    assert_eq!(o.repo_flags.bits(), RepoFlags::empty().bits());
    assert_eq!(o.lang_flags.bits(), LangFlags::ALLOW_UNSTABLE_FEATURES);
    assert_eq!(o.emit_class_pointers, "2");
    assert_eq!(o.check_int_overflow, "-17");
}

#[test]
fn numeric_options_are_written_in_decimal() {
    let o = native_env(i32::MIN, 1000).native_options();
    assert_eq!(o.emit_class_pointers, "-2147483648");
    assert_eq!(o.check_int_overflow, "1000");
    let o = native_env(0, i32::MAX).native_options();
    assert_eq!(o.emit_class_pointers, "0");
    assert_eq!(o.check_int_overflow, "2147483647");
}

#[test]
fn text_compile_settings_follow_env_flags() {
    let s = EnvFlags::empty().text_compile_settings();
    assert!(s.elaborate_namespaces);
    assert!(!s.is_systemlib);
    assert!(!s.for_debugger_eval);
    let f = EnvFlags::from_bits(
        EnvFlags::DISABLE_TOPLEVEL_ELABORATION | EnvFlags::IS_SYSTEMLIB | EnvFlags::FOR_DEBUGGER_EVAL,
    )
    .unwrap();
    let s = f.text_compile_settings();
    assert!(!s.elaborate_namespaces);
    assert!(s.is_systemlib);
    assert!(s.for_debugger_eval);
}

#[test]
fn fatal_op_follows_runtime_errors() {
    assert_eq!(fatal_op_for(true), FatalOp::Runtime);
    assert_eq!(fatal_op_for(false), FatalOp::Parse);
}

#[test]
fn parser_switches_follow_language_options() {
    let s = create_parser_options(LangFlags::empty());
    assert!(s.po_codegen);
    assert!(!s.po_disallow_silence);
    assert!(!s.po_enable_enum_classes);
    assert!(!s.tco_const_static_props);
    let l = LangFlags::from_bits(
        LangFlags::ENABLE_ENUM_CLASSES | LangFlags::CONST_STATIC_PROPS | LangFlags::DISALLOW_INST_METH,
    )
    .unwrap();
    let s = create_parser_options(l);
    assert!(s.po_enable_enum_classes);
    assert!(s.tco_const_static_props);
    assert!(s.po_disallow_inst_meth);
    assert!(!s.po_disable_xhp_element_mangling);
    assert!(!s.po_const_default_lambda_args);
}

#[test]
fn all_language_options_turn_on_every_switch() {
    let s = create_parser_options(LangFlags::all());
    assert!(s.po_disable_lval_as_an_expression);
    assert!(s.po_enable_class_level_where_clauses);
    assert!(s.po_disable_legacy_soft_typehints);
    assert!(s.po_allow_new_attribute_syntax);
    assert!(s.po_disable_legacy_attribute_syntax);
    assert!(s.po_const_default_func_args);
    assert!(s.po_const_default_lambda_args);
    assert!(s.tco_const_static_props);
    assert!(s.po_abstract_static_props);
    assert!(s.po_disallow_func_ptrs_in_constants);
    assert!(s.po_enable_xhp_class_modifier);
    assert!(s.po_disable_xhp_element_mangling);
    assert!(s.po_enable_enum_classes);
    assert!(s.po_allow_unstable_features);
    assert!(s.po_disallow_fun_and_cls_meth_pseudo_funcs);
    assert!(s.po_disallow_inst_meth);
    assert!(!s.po_disallow_silence);
}

#[test]
fn decimal_string_writes_digits_and_sign() {
    assert_eq!(decimal_string(0), "0");
    assert_eq!(decimal_string(7), "7");
    assert_eq!(decimal_string(10), "10");
    assert_eq!(decimal_string(-305), "-305");
    assert_eq!(decimal_string(i32::MAX), i32::MAX.to_string());
    assert_eq!(decimal_string(i32::MIN), i32::MIN.to_string());
}

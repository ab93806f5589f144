//! The parser options that the compiler derives from its language options.
use vstd::prelude::*;
use crate::bit_lemmas::has_u64;
use crate::option_flags::LangFlags;

verus! {

/// The switches of the parser that code generation sets.
///
/// Each switch that follows a language option is named as the parser names it.
#[derive(Clone, Copy, Debug, PartialEq, Eq, Structural)]
pub struct ParserSwitches {
    /// The parser runs on behalf of code generation.
    pub po_codegen: bool,
    /// The silence operator `@` is refused.
    pub po_disallow_silence: bool,
    /// An lvalue may not stand as an expression.
    pub po_disable_lval_as_an_expression: bool,
    /// Class-level `where` clauses are accepted.
    pub po_enable_class_level_where_clauses: bool,
    /// The `@`-prefixed soft type hints are refused.
    pub po_disable_legacy_soft_typehints: bool,
    /// The `@Attribute` syntax is accepted.
    pub po_allow_new_attribute_syntax: bool,
    /// The `<<Attribute>>` syntax is refused.
    pub po_disable_legacy_attribute_syntax: bool,
    /// Default arguments of functions must be constant.
    pub po_const_default_func_args: bool,
    /// Default arguments of lambdas must be constant.
    pub po_const_default_lambda_args: bool,
    /// Static properties may be constant.
    pub tco_const_static_props: bool,
    /// Static properties may be abstract.
    pub po_abstract_static_props: bool,
    /// Function pointers may not stand in constants.
    pub po_disallow_func_ptrs_in_constants: bool,
    /// The `xhp` class modifier is accepted.
    pub po_enable_xhp_class_modifier: bool,
    /// XHP element names are not mangled.
    pub po_disable_xhp_element_mangling: bool,
    /// Enum classes are accepted.
    pub po_enable_enum_classes: bool,
    /// Unstable language features are accepted.
    pub po_allow_unstable_features: bool,
    /// `fun` and `class_meth` are refused.
    pub po_disallow_fun_and_cls_meth_pseudo_funcs: bool,
    /// `inst_meth` is refused.
    pub po_disallow_inst_meth: bool,
}

/// The parser switches for code generation: `po_codegen` is on, `po_disallow_silence` is off,
/// and every other switch is on exactly when its language option is set.
pub fn create_parser_options(lang_flags: LangFlags) -> (r: ParserSwitches)
    ensures
        r.po_codegen,
        !r.po_disallow_silence,
        r.po_disable_lval_as_an_expression
            == has_u64(lang_flags@, LangFlags::DISABLE_LVAL_AS_AN_EXPRESSION),
        r.po_enable_class_level_where_clauses
            == has_u64(lang_flags@, LangFlags::ENABLE_CLASS_LEVEL_WHERE_CLAUSES),
        r.po_disable_legacy_soft_typehints
            == has_u64(lang_flags@, LangFlags::DISABLE_LEGACY_SOFT_TYPEHINTS),
        r.po_allow_new_attribute_syntax
            == has_u64(lang_flags@, LangFlags::ALLOW_NEW_ATTRIBUTE_SYNTAX),
        r.po_disable_legacy_attribute_syntax
            == has_u64(lang_flags@, LangFlags::DISABLE_LEGACY_ATTRIBUTE_SYNTAX),
        r.po_const_default_func_args == has_u64(lang_flags@, LangFlags::CONST_DEFAULT_FUNC_ARGS),
        r.po_const_default_lambda_args
            == has_u64(lang_flags@, LangFlags::CONST_DEFAULT_LAMBDA_ARGS),
        r.tco_const_static_props == has_u64(lang_flags@, LangFlags::CONST_STATIC_PROPS),
        r.po_abstract_static_props == has_u64(lang_flags@, LangFlags::ABSTRACT_STATIC_PROPS),
        r.po_disallow_func_ptrs_in_constants
            == has_u64(lang_flags@, LangFlags::DISALLOW_FUNC_PTRS_IN_CONSTANTS),
        r.po_enable_xhp_class_modifier
            == has_u64(lang_flags@, LangFlags::ENABLE_XHP_CLASS_MODIFIER),
        r.po_disable_xhp_element_mangling
            == has_u64(lang_flags@, LangFlags::DISABLE_XHP_ELEMENT_MANGLING),
        r.po_enable_enum_classes == has_u64(lang_flags@, LangFlags::ENABLE_ENUM_CLASSES),
        r.po_allow_unstable_features == has_u64(lang_flags@, LangFlags::ALLOW_UNSTABLE_FEATURES),
        r.po_disallow_fun_and_cls_meth_pseudo_funcs
            == has_u64(lang_flags@, LangFlags::DISALLOW_FUN_AND_CLS_METH_PSEUDO_FUNCS),
        r.po_disallow_inst_meth == has_u64(lang_flags@, LangFlags::DISALLOW_INST_METH),
{
    ParserSwitches {
        po_codegen: true,
        po_disallow_silence: false,
        po_disable_lval_as_an_expression: lang_flags.contains(
            LangFlags::DISABLE_LVAL_AS_AN_EXPRESSION,
        ),
        po_enable_class_level_where_clauses: lang_flags.contains(
            LangFlags::ENABLE_CLASS_LEVEL_WHERE_CLAUSES,
        ),
        po_disable_legacy_soft_typehints: lang_flags.contains(
            LangFlags::DISABLE_LEGACY_SOFT_TYPEHINTS,
        ),
        po_allow_new_attribute_syntax: lang_flags.contains(LangFlags::ALLOW_NEW_ATTRIBUTE_SYNTAX),
        po_disable_legacy_attribute_syntax: lang_flags.contains(
            LangFlags::DISABLE_LEGACY_ATTRIBUTE_SYNTAX,
        ),
        po_const_default_func_args: lang_flags.contains(LangFlags::CONST_DEFAULT_FUNC_ARGS),
        po_const_default_lambda_args: lang_flags.contains(LangFlags::CONST_DEFAULT_LAMBDA_ARGS),
        tco_const_static_props: lang_flags.contains(LangFlags::CONST_STATIC_PROPS),
        po_abstract_static_props: lang_flags.contains(LangFlags::ABSTRACT_STATIC_PROPS),
        po_disallow_func_ptrs_in_constants: lang_flags.contains(
            LangFlags::DISALLOW_FUNC_PTRS_IN_CONSTANTS,
        ),
        po_enable_xhp_class_modifier: lang_flags.contains(LangFlags::ENABLE_XHP_CLASS_MODIFIER),
        po_disable_xhp_element_mangling: lang_flags.contains(
            LangFlags::DISABLE_XHP_ELEMENT_MANGLING,
        ),
        po_enable_enum_classes: lang_flags.contains(LangFlags::ENABLE_ENUM_CLASSES),
        po_allow_unstable_features: lang_flags.contains(LangFlags::ALLOW_UNSTABLE_FEATURES),
        po_disallow_fun_and_cls_meth_pseudo_funcs: lang_flags.contains(
            LangFlags::DISALLOW_FUN_AND_CLS_METH_PSEUDO_FUNCS,
        ),
        po_disallow_inst_meth: lang_flags.contains(LangFlags::DISALLOW_INST_METH),
    }
}

} // verus!

//! Laws of the flag sets and of the conversions between them.
use vstd::prelude::*;
use crate::bit_lemmas::{has_u32, has_u64, has_u8};
use crate::flags::{
    from_ast_bits_of, hhvm_bits_of, lang_bits_of, php7_bits_of, repo_bits_of, EnvFlags,
    HHBCFlags, ParserFlags,
};
use crate::option_flags::{FromAstFlags, HhvmFlags, LangFlags, Php7Flags, RepoFlags};

verus! {

/// The PHP 7 options follow the bytecode flags: each target flag is set exactly when its
/// source flag is set, and no other bit is set.
pub proof fn lemma_php7_flags_follow_bytecode_flags(bits: u32)
    by (bit_vector)
    ensures
        has_u64(php7_bits_of(bits), Php7Flags::UVS) == has_u32(bits, HHBCFlags::UVS),
        has_u64(php7_bits_of(bits), Php7Flags::LTR_ASSIGN) == has_u32(bits, HHBCFlags::LTR_ASSIGN),
        php7_bits_of(bits) & !(Php7Flags::UVS | Php7Flags::LTR_ASSIGN) == 0,
{
}

/// The virtual machine options follow the bytecode flags: each target flag is set exactly
/// when its source flag is set, and no other bit is set.
pub proof fn lemma_hhvm_flags_follow_bytecode_flags(bits: u32)
    by (bit_vector)
    ensures
        has_u64(hhvm_bits_of(bits), HhvmFlags::ARRAY_PROVENANCE)
            == has_u32(bits, HHBCFlags::ARRAY_PROVENANCE),
        has_u64(hhvm_bits_of(bits), HhvmFlags::EMIT_CLS_METH_POINTERS)
            == has_u32(bits, HHBCFlags::EMIT_CLS_METH_POINTERS),
        has_u64(hhvm_bits_of(bits), HhvmFlags::EMIT_METH_CALLER_FUNC_POINTERS)
            == has_u32(bits, HHBCFlags::EMIT_METH_CALLER_FUNC_POINTERS),
        has_u64(hhvm_bits_of(bits), HhvmFlags::ENABLE_INTRINSICS_EXTENSION)
            == has_u32(bits, HHBCFlags::ENABLE_INTRINSICS_EXTENSION),
        has_u64(hhvm_bits_of(bits), HhvmFlags::FOLD_LAZY_CLASS_KEYS)
            == has_u32(bits, HHBCFlags::FOLD_LAZY_CLASS_KEYS),
        has_u64(hhvm_bits_of(bits), HhvmFlags::JIT_ENABLE_RENAME_FUNCTION)
            == has_u32(bits, HHBCFlags::JIT_ENABLE_RENAME_FUNCTION),
        has_u64(hhvm_bits_of(bits), HhvmFlags::LOG_EXTERN_COMPILER_PERF)
            == has_u32(bits, HHBCFlags::LOG_EXTERN_COMPILER_PERF),
        has_u64(hhvm_bits_of(bits), HhvmFlags::ENABLE_IMPLICIT_CONTEXT)
            == has_u32(bits, HHBCFlags::ENABLE_IMPLICIT_CONTEXT),
        hhvm_bits_of(bits) & !(HhvmFlags::ARRAY_PROVENANCE | HhvmFlags::EMIT_CLS_METH_POINTERS
            | HhvmFlags::EMIT_METH_CALLER_FUNC_POINTERS
            | HhvmFlags::ENABLE_INTRINSICS_EXTENSION
            | HhvmFlags::FOLD_LAZY_CLASS_KEYS
            | HhvmFlags::JIT_ENABLE_RENAME_FUNCTION
            | HhvmFlags::LOG_EXTERN_COMPILER_PERF
            | HhvmFlags::ENABLE_IMPLICIT_CONTEXT) == 0,
{
}

/// The repository options follow the bytecode flags: each target flag is set exactly when
/// its source flag is set, and no other bit is set.
pub proof fn lemma_repo_flags_follow_bytecode_flags(bits: u32)
    by (bit_vector)
    ensures
        has_u64(repo_bits_of(bits), RepoFlags::AUTHORITATIVE)
            == has_u32(bits, HHBCFlags::AUTHORITATIVE),
        repo_bits_of(bits) & !(RepoFlags::AUTHORITATIVE) == 0,
{
}

/// The language options follow the parser flags: each target flag is set exactly when its
/// source flag is set, and no other bit is set.
pub proof fn lemma_lang_flags_follow_parser_flags(bits: u32)
    by (bit_vector)
    ensures
        has_u64(lang_bits_of(bits), LangFlags::ABSTRACT_STATIC_PROPS)
            == has_u32(bits, ParserFlags::ABSTRACT_STATIC_PROPS),
        has_u64(lang_bits_of(bits), LangFlags::ALLOW_NEW_ATTRIBUTE_SYNTAX)
            == has_u32(bits, ParserFlags::ALLOW_NEW_ATTRIBUTE_SYNTAX),
        has_u64(lang_bits_of(bits), LangFlags::ALLOW_UNSTABLE_FEATURES)
            == has_u32(bits, ParserFlags::ALLOW_UNSTABLE_FEATURES),
        has_u64(lang_bits_of(bits), LangFlags::CONST_DEFAULT_FUNC_ARGS)
            == has_u32(bits, ParserFlags::CONST_DEFAULT_FUNC_ARGS),
        has_u64(lang_bits_of(bits), LangFlags::CONST_STATIC_PROPS)
            == has_u32(bits, ParserFlags::CONST_STATIC_PROPS),
        has_u64(lang_bits_of(bits), LangFlags::DISABLE_LVAL_AS_AN_EXPRESSION)
            == has_u32(bits, ParserFlags::DISABLE_LVAL_AS_AN_EXPRESSION),
        has_u64(lang_bits_of(bits), LangFlags::DISALLOW_INST_METH)
            == has_u32(bits, ParserFlags::DISALLOW_INST_METH),
        has_u64(lang_bits_of(bits), LangFlags::DISABLE_XHP_ELEMENT_MANGLING)
            == has_u32(bits, ParserFlags::DISABLE_XHP_ELEMENT_MANGLING),
        has_u64(lang_bits_of(bits), LangFlags::DISALLOW_FUN_AND_CLS_METH_PSEUDO_FUNCS)
            == has_u32(bits, ParserFlags::DISALLOW_FUN_AND_CLS_METH_PSEUDO_FUNCS),
        has_u64(lang_bits_of(bits), LangFlags::DISALLOW_FUNC_PTRS_IN_CONSTANTS)
            == has_u32(bits, ParserFlags::DISALLOW_FUNC_PTRS_IN_CONSTANTS),
        has_u64(lang_bits_of(bits), LangFlags::ENABLE_ENUM_CLASSES)
            == has_u32(bits, ParserFlags::ENABLE_ENUM_CLASSES),
        has_u64(lang_bits_of(bits), LangFlags::ENABLE_XHP_CLASS_MODIFIER)
            == has_u32(bits, ParserFlags::ENABLE_XHP_CLASS_MODIFIER),
        has_u64(lang_bits_of(bits), LangFlags::ENABLE_CLASS_LEVEL_WHERE_CLAUSES)
            == has_u32(bits, ParserFlags::ENABLE_CLASS_LEVEL_WHERE_CLAUSES),
        lang_bits_of(bits) & !(LangFlags::ABSTRACT_STATIC_PROPS
            | LangFlags::ALLOW_NEW_ATTRIBUTE_SYNTAX
            | LangFlags::ALLOW_UNSTABLE_FEATURES
            | LangFlags::CONST_DEFAULT_FUNC_ARGS | LangFlags::CONST_STATIC_PROPS
            | LangFlags::DISABLE_LVAL_AS_AN_EXPRESSION
            | LangFlags::DISALLOW_INST_METH
            | LangFlags::DISABLE_XHP_ELEMENT_MANGLING
            | LangFlags::DISALLOW_FUN_AND_CLS_METH_PSEUDO_FUNCS
            | LangFlags::DISALLOW_FUNC_PTRS_IN_CONSTANTS
            | LangFlags::ENABLE_ENUM_CLASSES | LangFlags::ENABLE_XHP_CLASS_MODIFIER
            | LangFlags::ENABLE_CLASS_LEVEL_WHERE_CLAUSES) == 0,
{
}

/// The emitter flags follow the environment flags: each target flag is set exactly when its
/// source flag is set, and no other bit is set.
pub proof fn lemma_from_ast_flags_follow_env_flags(bits: u8)
    by (bit_vector)
    ensures
        has_u8(from_ast_bits_of(bits), FromAstFlags::IS_EVALED)
            == has_u8(bits, EnvFlags::IS_EVALED),
        has_u8(from_ast_bits_of(bits), FromAstFlags::FOR_DEBUGGER_EVAL)
            == has_u8(bits, EnvFlags::FOR_DEBUGGER_EVAL),
        has_u8(from_ast_bits_of(bits), FromAstFlags::IS_SYSTEMLIB)
            == has_u8(bits, EnvFlags::IS_SYSTEMLIB),
        from_ast_bits_of(bits) & !(FromAstFlags::IS_EVALED | FromAstFlags::FOR_DEBUGGER_EVAL
            | FromAstFlags::IS_SYSTEMLIB) == 0,
{
}

/// Taking the PHP 7 options distributes over the union of flag sets, and takes the empty
/// set to the empty set.
pub proof fn lemma_php7_flags_of_union(a: u32, b: u32)
    by (bit_vector)
    ensures
        php7_bits_of(a | b) == php7_bits_of(a) | php7_bits_of(b),
        php7_bits_of(0) == 0,
{
}

/// Taking the virtual machine options distributes over the union of flag sets, and takes
/// the empty set to the empty set.
pub proof fn lemma_hhvm_flags_of_union(a: u32, b: u32)
    by (bit_vector)
    ensures
        hhvm_bits_of(a | b) == hhvm_bits_of(a) | hhvm_bits_of(b),
        hhvm_bits_of(0) == 0,
{
}

/// Taking the repository options distributes over the union of flag sets, and takes the
/// empty set to the empty set.
pub proof fn lemma_repo_flags_of_union(a: u32, b: u32)
    by (bit_vector)
    ensures
        repo_bits_of(a | b) == repo_bits_of(a) | repo_bits_of(b),
        repo_bits_of(0) == 0,
{
}

/// Taking the language options distributes over the union of flag sets, and takes the empty
/// set to the empty set.
pub proof fn lemma_lang_flags_of_union(a: u32, b: u32)
    by (bit_vector)
    ensures
        lang_bits_of(a | b) == lang_bits_of(a) | lang_bits_of(b),
        lang_bits_of(0) == 0,
{
}

/// Taking the emitter flags distributes over the union of flag sets, and takes the empty
/// set to the empty set.
pub proof fn lemma_from_ast_flags_of_union(a: u8, b: u8)
    by (bit_vector)
    ensures
        from_ast_bits_of(a | b) == from_ast_bits_of(a) | from_ast_bits_of(b),
        from_ast_bits_of(0) == 0,
{
}

/// No bytecode flag is lost: two sets of bytecode flags with the same PHP 7, virtual
/// machine and repository options are the same set.
pub proof fn lemma_bytecode_flags_are_recoverable(a: u32, b: u32)
    by (bit_vector)
    requires
        a & !HHBCFlags::KNOWN_BITS == 0,
        b & !HHBCFlags::KNOWN_BITS == 0,
        php7_bits_of(a) == php7_bits_of(b),
        hhvm_bits_of(a) == hhvm_bits_of(b),
        repo_bits_of(a) == repo_bits_of(b),
    ensures
        a == b,
{
}

/// No parser flag is lost: two sets of parser flags with the same language options are the
/// same set.
pub proof fn lemma_parser_flags_are_recoverable(a: u32, b: u32)
    by (bit_vector)
    requires
        a & !ParserFlags::KNOWN_BITS == 0,
        b & !ParserFlags::KNOWN_BITS == 0,
        lang_bits_of(a) == lang_bits_of(b),
    ensures
        a == b,
{
}

/// Adding flags to a set makes the set contain them and keeps every flag it contained.
pub proof fn lemma_insert_then_contains_u8(bits: u8, added: u8, other: u8)
    by (bit_vector)
    ensures
        has_u8(bits | added, added),
        has_u8(bits, other) ==> has_u8(bits | added, other),
{
}

/// Adding flags to a set makes the set contain them and keeps every flag it contained.
pub proof fn lemma_insert_then_contains_u32(bits: u32, added: u32, other: u32)
    by (bit_vector)
    ensures
        has_u32(bits | added, added),
        has_u32(bits, other) ==> has_u32(bits | added, other),
{
}

/// Adding flags to a set makes the set contain them and keeps every flag it contained.
pub proof fn lemma_insert_then_contains_u64(bits: u64, added: u64, other: u64)
    by (bit_vector)
    ensures
        has_u64(bits | added, added),
        has_u64(bits, other) ==> has_u64(bits | added, other),
{
}

} // verus!

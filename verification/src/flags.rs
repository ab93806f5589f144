//! The flag sets that the runtime hands to the compiler, and the option sets that the
//! compiler derives from them.
//!
//! The bit of each runtime flag is part of the interface with the runtime: the values
//! below must stay as they are.
use vstd::prelude::*;
use crate::bit_lemmas::{
    has_u32, has_u8,
    lemma_u8_and_within, lemma_u8_or_within,
    lemma_u8_self_within, lemma_u8_zero_within,
    lemma_u32_and_within, lemma_u32_or_within,
    lemma_u32_self_within, lemma_u32_zero_within,
    lemma_u8_or_zero, lemma_u64_or_zero,
};
use crate::option_flags::{FromAstFlags, HhvmFlags, LangFlags, Php7Flags, RepoFlags};

verus! {

/// Flags that describe the compilation environment.
///
/// A value holds a set of the flags below as the bits of a `u8`; it never holds a bit
/// that no flag defines.
#[derive(Clone, Copy, Debug, PartialEq, Eq, Structural, Hash)]
pub struct EnvFlags {
    bits: u8,
}

impl View for EnvFlags {
    type V = u8;

    closed spec fn view(&self) -> u8 {
        self.bits
    }
}

impl EnvFlags {
    /// The unit is part of the system library.
    pub const IS_SYSTEMLIB: u8 = 1 << 0;

    /// The unit comes from `eval`.
    pub const IS_EVALED: u8 = 1 << 1;

    /// The unit is evaluated on behalf of the debugger.
    pub const FOR_DEBUGGER_EVAL: u8 = 1 << 2;

    /// A flag that no longer has a meaning; its bit stays reserved.
    pub const UNUSED_PLACEHOLDER: u8 = 1 << 3;

    /// Top-level namespace elaboration is skipped while parsing.
    pub const DISABLE_TOPLEVEL_ELABORATION: u8 = 1 << 4;

    /// The bits of every defined flag.
    pub const KNOWN_BITS: u8 =
        Self::IS_SYSTEMLIB | Self::IS_EVALED | Self::FOR_DEBUGGER_EVAL
        | Self::UNUSED_PLACEHOLDER | Self::DISABLE_TOPLEVEL_ELABORATION;

    #[verifier::type_invariant]
    closed spec fn holds_known_bits_only(self) -> bool {
        self.bits & !Self::KNOWN_BITS == 0
    }

    /// The set with no flag.
    pub fn empty() -> (r: Self)
        ensures
            r@ == 0,
    {
        proof {
            lemma_u8_zero_within(Self::KNOWN_BITS);
        }
        Self { bits: 0 }
    }

    /// The set of every defined flag.
    pub fn all() -> (r: Self)
        ensures
            r@ == Self::KNOWN_BITS,
    {
        proof {
            lemma_u8_self_within(Self::KNOWN_BITS);
        }
        Self { bits: Self::KNOWN_BITS }
    }

    /// The raw bits of the set.
    pub fn bits(&self) -> (r: u8)
        ensures
            r == self@,
            r & !Self::KNOWN_BITS == 0,
    {
        proof {
            use_type_invariant(self);
        }
        self.bits
    }

    /// The set with exactly the given bits, or `None` when a bit belongs to no flag.
    pub fn from_bits(bits: u8) -> (r: Option<Self>)
        ensures
            r is Some <==> bits & !Self::KNOWN_BITS == 0,
            r matches Some(f) ==> f@ == bits,
    {
        if bits & !Self::KNOWN_BITS == 0 {
            Some(Self { bits })
        } else {
            None
        }
    }

    /// The set of the given bits, with every bit that belongs to no flag dropped.
    pub fn from_bits_truncate(bits: u8) -> (r: Self)
        ensures
            r@ == bits & Self::KNOWN_BITS,
    {
        proof {
            lemma_u8_and_within(bits, Self::KNOWN_BITS);
        }
        Self { bits: bits & Self::KNOWN_BITS }
    }

    /// Whether every bit of `other` is in the set.
    pub fn contains(&self, other: u8) -> (r: bool)
        ensures
            r == (self@ & other == other),
    {
        self.bits & other == other
    }

    /// Adds the flags of `other` to the set.
    pub fn insert(&mut self, other: u8)
        requires
            other & !Self::KNOWN_BITS == 0,
        ensures
            final(self)@ == old(self)@ | other,
    {
        proof {
            use_type_invariant(&*self);
            lemma_u8_or_within(self.bits, other, Self::KNOWN_BITS);
        }
        self.bits = self.bits | other;
    }
}

impl EnvFlags {
    /// The flags that an integer of the runtime encodes: its low eight bits, or `None` when
    /// one of them belongs to no flag.
    pub fn from_ocaml_int(i: isize) -> (r: Option<EnvFlags>)
        ensures
            r is Some <==> (i as u8) & !EnvFlags::KNOWN_BITS == 0,
            r matches Some(f) ==> f@ == i as u8,
    {
        EnvFlags::from_bits(i as u8)
    }
}

/// Bytecode options handed over by the runtime.
///
/// A value holds a set of the flags below as the bits of a `u32`; it never holds a bit
/// that no flag defines.
#[derive(Clone, Copy, Debug, PartialEq, Eq, Structural, Hash)]
pub struct HHBCFlags {
    bits: u32,
}

impl View for HHBCFlags {
    type V = u32;

    closed spec fn view(&self) -> u32 {
        self.bits
    }
}

impl HHBCFlags {
    /// Assignments are evaluated left to right.
    pub const LTR_ASSIGN: u32 = 1 << 0;

    /// Uniform variable syntax.
    pub const UVS: u32 = 1 << 1;

    /// The repository is authoritative.
    pub const AUTHORITATIVE: u32 = 1 << 4;

    /// The JIT may rename functions.
    pub const JIT_ENABLE_RENAME_FUNCTION: u32 = 1 << 5;

    /// Compiler timings are logged.
    pub const LOG_EXTERN_COMPILER_PERF: u32 = 1 << 6;

    /// The intrinsics extension is on.
    pub const ENABLE_INTRINSICS_EXTENSION: u32 = 1 << 7;

    /// Class-method pointers are emitted.
    pub const EMIT_CLS_METH_POINTERS: u32 = 1 << 10;

    /// Method-caller function pointers are emitted.
    pub const EMIT_METH_CALLER_FUNC_POINTERS: u32 = 1 << 11;

    /// The implicit context is on.
    pub const ENABLE_IMPLICIT_CONTEXT: u32 = 1 << 12;

    /// Arrays carry provenance.
    pub const ARRAY_PROVENANCE: u32 = 1 << 13;

    /// Lazy class keys are folded.
    pub const FOLD_LAZY_CLASS_KEYS: u32 = 1 << 15;

    /// The bits of every defined flag.
    pub const KNOWN_BITS: u32 =
        Self::LTR_ASSIGN | Self::UVS | Self::AUTHORITATIVE | Self::JIT_ENABLE_RENAME_FUNCTION
        | Self::LOG_EXTERN_COMPILER_PERF | Self::ENABLE_INTRINSICS_EXTENSION
        | Self::EMIT_CLS_METH_POINTERS | Self::EMIT_METH_CALLER_FUNC_POINTERS
        | Self::ENABLE_IMPLICIT_CONTEXT | Self::ARRAY_PROVENANCE | Self::FOLD_LAZY_CLASS_KEYS;

    #[verifier::type_invariant]
    closed spec fn holds_known_bits_only(self) -> bool {
        self.bits & !Self::KNOWN_BITS == 0
    }

    /// The set with no flag.
    pub fn empty() -> (r: Self)
        ensures
            r@ == 0,
    {
        proof {
            lemma_u32_zero_within(Self::KNOWN_BITS);
        }
        Self { bits: 0 }
    }

    /// The set of every defined flag.
    pub fn all() -> (r: Self)
        ensures
            r@ == Self::KNOWN_BITS,
    {
        proof {
            lemma_u32_self_within(Self::KNOWN_BITS);
        }
        Self { bits: Self::KNOWN_BITS }
    }

    /// The raw bits of the set.
    pub fn bits(&self) -> (r: u32)
        ensures
            r == self@,
            r & !Self::KNOWN_BITS == 0,
    {
        proof {
            use_type_invariant(self);
        }
        self.bits
    }

    /// The set with exactly the given bits, or `None` when a bit belongs to no flag.
    pub fn from_bits(bits: u32) -> (r: Option<Self>)
        ensures
            r is Some <==> bits & !Self::KNOWN_BITS == 0,
            r matches Some(f) ==> f@ == bits,
    {
        if bits & !Self::KNOWN_BITS == 0 {
            Some(Self { bits })
        } else {
            None
        }
    }

    /// The set of the given bits, with every bit that belongs to no flag dropped.
    pub fn from_bits_truncate(bits: u32) -> (r: Self)
        ensures
            r@ == bits & Self::KNOWN_BITS,
    {
        proof {
            lemma_u32_and_within(bits, Self::KNOWN_BITS);
        }
        Self { bits: bits & Self::KNOWN_BITS }
    }

    /// Whether every bit of `other` is in the set.
    pub fn contains(&self, other: u32) -> (r: bool)
        ensures
            r == (self@ & other == other),
    {
        self.bits & other == other
    }

    /// Adds the flags of `other` to the set.
    pub fn insert(&mut self, other: u32)
        requires
            other & !Self::KNOWN_BITS == 0,
        ensures
            final(self)@ == old(self)@ | other,
    {
        proof {
            use_type_invariant(&*self);
            lemma_u32_or_within(self.bits, other, Self::KNOWN_BITS);
        }
        self.bits = self.bits | other;
    }
}

/// Parser options handed over by the runtime.
///
/// A value holds a set of the flags below as the bits of a `u32`; it never holds a bit
/// that no flag defines.
#[derive(Clone, Copy, Debug, PartialEq, Eq, Structural, Hash)]
pub struct ParserFlags {
    bits: u32,
}

impl View for ParserFlags {
    type V = u32;

    closed spec fn view(&self) -> u32 {
        self.bits
    }
}

impl ParserFlags {
    /// Static properties may be abstract.
    pub const ABSTRACT_STATIC_PROPS: u32 = 1 << 0;

    /// The `@Attribute` syntax is accepted.
    pub const ALLOW_NEW_ATTRIBUTE_SYNTAX: u32 = 1 << 1;

    /// Unstable language features are accepted.
    pub const ALLOW_UNSTABLE_FEATURES: u32 = 1 << 2;

    /// Default arguments of functions must be constant.
    pub const CONST_DEFAULT_FUNC_ARGS: u32 = 1 << 3;

    /// Static properties may be constant.
    pub const CONST_STATIC_PROPS: u32 = 1 << 4;

    /// An lvalue may not stand as an expression.
    pub const DISABLE_LVAL_AS_AN_EXPRESSION: u32 = 1 << 8;

    /// `inst_meth` is refused.
    pub const DISALLOW_INST_METH: u32 = 1 << 10;

    /// XHP element names are not mangled.
    pub const DISABLE_XHP_ELEMENT_MANGLING: u32 = 1 << 11;

    /// `fun` and `class_meth` are refused.
    pub const DISALLOW_FUN_AND_CLS_METH_PSEUDO_FUNCS: u32 = 1 << 12;

    /// Function pointers may not stand in constants.
    pub const DISALLOW_FUNC_PTRS_IN_CONSTANTS: u32 = 1 << 13;

    /// Enum classes are accepted.
    pub const ENABLE_ENUM_CLASSES: u32 = 1 << 16;

    /// The `xhp` class modifier is accepted.
    pub const ENABLE_XHP_CLASS_MODIFIER: u32 = 1 << 17;

    /// Class-level `where` clauses are accepted.
    pub const ENABLE_CLASS_LEVEL_WHERE_CLAUSES: u32 = 1 << 20;

    /// The bits of every defined flag.
    pub const KNOWN_BITS: u32 =
        Self::ABSTRACT_STATIC_PROPS | Self::ALLOW_NEW_ATTRIBUTE_SYNTAX
        | Self::ALLOW_UNSTABLE_FEATURES | Self::CONST_DEFAULT_FUNC_ARGS
        | Self::CONST_STATIC_PROPS | Self::DISABLE_LVAL_AS_AN_EXPRESSION
        | Self::DISALLOW_INST_METH | Self::DISABLE_XHP_ELEMENT_MANGLING
        | Self::DISALLOW_FUN_AND_CLS_METH_PSEUDO_FUNCS | Self::DISALLOW_FUNC_PTRS_IN_CONSTANTS
        | Self::ENABLE_ENUM_CLASSES | Self::ENABLE_XHP_CLASS_MODIFIER
        | Self::ENABLE_CLASS_LEVEL_WHERE_CLAUSES;

    #[verifier::type_invariant]
    closed spec fn holds_known_bits_only(self) -> bool {
        self.bits & !Self::KNOWN_BITS == 0
    }

    /// The set with no flag.
    pub fn empty() -> (r: Self)
        ensures
            r@ == 0,
    {
        proof {
            lemma_u32_zero_within(Self::KNOWN_BITS);
        }
        Self { bits: 0 }
    }

    /// The set of every defined flag.
    pub fn all() -> (r: Self)
        ensures
            r@ == Self::KNOWN_BITS,
    {
        proof {
            lemma_u32_self_within(Self::KNOWN_BITS);
        }
        Self { bits: Self::KNOWN_BITS }
    }

    /// The raw bits of the set.
    pub fn bits(&self) -> (r: u32)
        ensures
            r == self@,
            r & !Self::KNOWN_BITS == 0,
    {
        proof {
            use_type_invariant(self);
        }
        self.bits
    }

    /// The set with exactly the given bits, or `None` when a bit belongs to no flag.
    pub fn from_bits(bits: u32) -> (r: Option<Self>)
        ensures
            r is Some <==> bits & !Self::KNOWN_BITS == 0,
            r matches Some(f) ==> f@ == bits,
    {
        if bits & !Self::KNOWN_BITS == 0 {
            Some(Self { bits })
        } else {
            None
        }
    }

    /// The set of the given bits, with every bit that belongs to no flag dropped.
    pub fn from_bits_truncate(bits: u32) -> (r: Self)
        ensures
            r@ == bits & Self::KNOWN_BITS,
    {
        proof {
            lemma_u32_and_within(bits, Self::KNOWN_BITS);
        }
        Self { bits: bits & Self::KNOWN_BITS }
    }

    /// Whether every bit of `other` is in the set.
    pub fn contains(&self, other: u32) -> (r: bool)
        ensures
            r == (self@ & other == other),
    {
        self.bits & other == other
    }

    /// Adds the flags of `other` to the set.
    pub fn insert(&mut self, other: u32)
        requires
            other & !Self::KNOWN_BITS == 0,
        ensures
            final(self)@ == old(self)@ | other,
    {
        proof {
            use_type_invariant(&*self);
            lemma_u32_or_within(self.bits, other, Self::KNOWN_BITS);
        }
        self.bits = self.bits | other;
    }
}

/// The PHP 7 options that the bytecode flags select.
///
/// Each term stands for one flag: the target flag is set exactly when the source flag is.
pub open spec fn php7_bits_of(bits: u32) -> u64 {
    0
        | (if has_u32(bits, HHBCFlags::UVS) { Php7Flags::UVS } else { 0 })
        | (if has_u32(bits, HHBCFlags::LTR_ASSIGN) { Php7Flags::LTR_ASSIGN } else { 0 })
}

impl HHBCFlags {
    /// The PHP 7 options that the bytecode flags select.
    pub fn to_php7_flags(self) -> (r: Php7Flags)
        ensures
            r@ == php7_bits_of(self@),
    {
        proof {
            Php7Flags::lemma_flags_are_known();
        }
        let mut f = Php7Flags::empty();
        if self.contains(HHBCFlags::UVS) {
            f.insert(Php7Flags::UVS);
        } else {
            proof {
                lemma_u64_or_zero(f@);
            }
        }
        if self.contains(HHBCFlags::LTR_ASSIGN) {
            f.insert(Php7Flags::LTR_ASSIGN);
        } else {
            proof {
                lemma_u64_or_zero(f@);
            }
        }
        f
    }
}

/// The virtual machine options that the bytecode flags select.
///
/// Each term stands for one flag: the target flag is set exactly when the source flag is.
pub open spec fn hhvm_bits_of(bits: u32) -> u64 {
    0
        | (if has_u32(bits, HHBCFlags::ARRAY_PROVENANCE) { HhvmFlags::ARRAY_PROVENANCE } else { 0 })
        | (if has_u32(bits, HHBCFlags::EMIT_CLS_METH_POINTERS) {
            HhvmFlags::EMIT_CLS_METH_POINTERS
        } else {
            0
        })
        | (if has_u32(bits, HHBCFlags::EMIT_METH_CALLER_FUNC_POINTERS) {
            HhvmFlags::EMIT_METH_CALLER_FUNC_POINTERS
        } else {
            0
        })
        | (if has_u32(bits, HHBCFlags::ENABLE_INTRINSICS_EXTENSION) {
            HhvmFlags::ENABLE_INTRINSICS_EXTENSION
        } else {
            0
        })
        | (if has_u32(bits, HHBCFlags::FOLD_LAZY_CLASS_KEYS) {
            HhvmFlags::FOLD_LAZY_CLASS_KEYS
        } else {
            0
        })
        | (if has_u32(bits, HHBCFlags::JIT_ENABLE_RENAME_FUNCTION) {
            HhvmFlags::JIT_ENABLE_RENAME_FUNCTION
        } else {
            0
        })
        | (if has_u32(bits, HHBCFlags::LOG_EXTERN_COMPILER_PERF) {
            HhvmFlags::LOG_EXTERN_COMPILER_PERF
        } else {
            0
        })
        | (if has_u32(bits, HHBCFlags::ENABLE_IMPLICIT_CONTEXT) {
            HhvmFlags::ENABLE_IMPLICIT_CONTEXT
        } else {
            0
        })
}

impl HHBCFlags {
    /// The virtual machine options that the bytecode flags select.
    pub fn to_hhvm_flags(self) -> (r: HhvmFlags)
        ensures
            r@ == hhvm_bits_of(self@),
    {
        proof {
            HhvmFlags::lemma_flags_are_known();
        }
        let mut f = HhvmFlags::empty();
        if self.contains(HHBCFlags::ARRAY_PROVENANCE) {
            f.insert(HhvmFlags::ARRAY_PROVENANCE);
        } else {
            proof {
                lemma_u64_or_zero(f@);
            }
        }
        if self.contains(HHBCFlags::EMIT_CLS_METH_POINTERS) {
            f.insert(HhvmFlags::EMIT_CLS_METH_POINTERS);
        } else {
            proof {
                lemma_u64_or_zero(f@);
            }
        }
        if self.contains(HHBCFlags::EMIT_METH_CALLER_FUNC_POINTERS) {
            f.insert(HhvmFlags::EMIT_METH_CALLER_FUNC_POINTERS);
        } else {
            proof {
                lemma_u64_or_zero(f@);
            }
        }
        if self.contains(HHBCFlags::ENABLE_INTRINSICS_EXTENSION) {
            f.insert(HhvmFlags::ENABLE_INTRINSICS_EXTENSION);
        } else {
            proof {
                lemma_u64_or_zero(f@);
            }
        }
        if self.contains(HHBCFlags::FOLD_LAZY_CLASS_KEYS) {
            f.insert(HhvmFlags::FOLD_LAZY_CLASS_KEYS);
        } else {
            proof {
                lemma_u64_or_zero(f@);
            }
        }
        if self.contains(HHBCFlags::JIT_ENABLE_RENAME_FUNCTION) {
            f.insert(HhvmFlags::JIT_ENABLE_RENAME_FUNCTION);
        } else {
            proof {
                lemma_u64_or_zero(f@);
            }
        }
        if self.contains(HHBCFlags::LOG_EXTERN_COMPILER_PERF) {
            f.insert(HhvmFlags::LOG_EXTERN_COMPILER_PERF);
        } else {
            proof {
                lemma_u64_or_zero(f@);
            }
        }
        if self.contains(HHBCFlags::ENABLE_IMPLICIT_CONTEXT) {
            f.insert(HhvmFlags::ENABLE_IMPLICIT_CONTEXT);
        } else {
            proof {
                lemma_u64_or_zero(f@);
            }
        }
        f
    }
}

/// The repository options that the bytecode flags select.
///
/// Each term stands for one flag: the target flag is set exactly when the source flag is.
pub open spec fn repo_bits_of(bits: u32) -> u64 {
    0
        | (if has_u32(bits, HHBCFlags::AUTHORITATIVE) { RepoFlags::AUTHORITATIVE } else { 0 })
}

impl HHBCFlags {
    /// The repository options that the bytecode flags select.
    pub fn to_repo_flags(self) -> (r: RepoFlags)
        ensures
            r@ == repo_bits_of(self@),
    {
        proof {
            RepoFlags::lemma_flags_are_known();
        }
        let mut f = RepoFlags::empty();
        if self.contains(HHBCFlags::AUTHORITATIVE) {
            f.insert(RepoFlags::AUTHORITATIVE);
        } else {
            proof {
                lemma_u64_or_zero(f@);
            }
        }
        f
    }
}

/// The language options that the parser flags select.
///
/// Each term stands for one flag: the target flag is set exactly when the source flag is.
pub open spec fn lang_bits_of(bits: u32) -> u64 {
    0
        | (if has_u32(bits, ParserFlags::ABSTRACT_STATIC_PROPS) {
            LangFlags::ABSTRACT_STATIC_PROPS
        } else {
            0
        })
        | (if has_u32(bits, ParserFlags::ALLOW_NEW_ATTRIBUTE_SYNTAX) {
            LangFlags::ALLOW_NEW_ATTRIBUTE_SYNTAX
        } else {
            0
        })
        | (if has_u32(bits, ParserFlags::ALLOW_UNSTABLE_FEATURES) {
            LangFlags::ALLOW_UNSTABLE_FEATURES
        } else {
            0
        })
        | (if has_u32(bits, ParserFlags::CONST_DEFAULT_FUNC_ARGS) {
            LangFlags::CONST_DEFAULT_FUNC_ARGS
        } else {
            0
        })
        | (if has_u32(bits, ParserFlags::CONST_STATIC_PROPS) {
            LangFlags::CONST_STATIC_PROPS
        } else {
            0
        })
        | (if has_u32(bits, ParserFlags::DISABLE_LVAL_AS_AN_EXPRESSION) {
            LangFlags::DISABLE_LVAL_AS_AN_EXPRESSION
        } else {
            0
        })
        | (if has_u32(bits, ParserFlags::DISALLOW_INST_METH) {
            LangFlags::DISALLOW_INST_METH
        } else {
            0
        })
        | (if has_u32(bits, ParserFlags::DISABLE_XHP_ELEMENT_MANGLING) {
            LangFlags::DISABLE_XHP_ELEMENT_MANGLING
        } else {
            0
        })
        | (if has_u32(bits, ParserFlags::DISALLOW_FUN_AND_CLS_METH_PSEUDO_FUNCS) {
            LangFlags::DISALLOW_FUN_AND_CLS_METH_PSEUDO_FUNCS
        } else {
            0
        })
        | (if has_u32(bits, ParserFlags::DISALLOW_FUNC_PTRS_IN_CONSTANTS) {
            LangFlags::DISALLOW_FUNC_PTRS_IN_CONSTANTS
        } else {
            0
        })
        | (if has_u32(bits, ParserFlags::ENABLE_ENUM_CLASSES) {
            LangFlags::ENABLE_ENUM_CLASSES
        } else {
            0
        })
        | (if has_u32(bits, ParserFlags::ENABLE_XHP_CLASS_MODIFIER) {
            LangFlags::ENABLE_XHP_CLASS_MODIFIER
        } else {
            0
        })
        | (if has_u32(bits, ParserFlags::ENABLE_CLASS_LEVEL_WHERE_CLAUSES) {
            LangFlags::ENABLE_CLASS_LEVEL_WHERE_CLAUSES
        } else {
            0
        })
}

impl ParserFlags {
    /// The language options that the parser flags select.
    pub fn to_lang_flags(self) -> (r: LangFlags)
        ensures
            r@ == lang_bits_of(self@),
    {
        proof {
            LangFlags::lemma_flags_are_known();
        }
        let mut f = LangFlags::empty();
        if self.contains(ParserFlags::ABSTRACT_STATIC_PROPS) {
            f.insert(LangFlags::ABSTRACT_STATIC_PROPS);
        } else {
            proof {
                lemma_u64_or_zero(f@);
            }
        }
        if self.contains(ParserFlags::ALLOW_NEW_ATTRIBUTE_SYNTAX) {
            f.insert(LangFlags::ALLOW_NEW_ATTRIBUTE_SYNTAX);
        } else {
            proof {
                lemma_u64_or_zero(f@);
            }
        }
        if self.contains(ParserFlags::ALLOW_UNSTABLE_FEATURES) {
            f.insert(LangFlags::ALLOW_UNSTABLE_FEATURES);
        } else {
            proof {
                lemma_u64_or_zero(f@);
            }
        }
        if self.contains(ParserFlags::CONST_DEFAULT_FUNC_ARGS) {
            f.insert(LangFlags::CONST_DEFAULT_FUNC_ARGS);
        } else {
            proof {
                lemma_u64_or_zero(f@);
            }
        }
        if self.contains(ParserFlags::CONST_STATIC_PROPS) {
            f.insert(LangFlags::CONST_STATIC_PROPS);
        } else {
            proof {
                lemma_u64_or_zero(f@);
            }
        }
        if self.contains(ParserFlags::DISABLE_LVAL_AS_AN_EXPRESSION) {
            f.insert(LangFlags::DISABLE_LVAL_AS_AN_EXPRESSION);
        } else {
            proof {
                lemma_u64_or_zero(f@);
            }
        }
        if self.contains(ParserFlags::DISALLOW_INST_METH) {
            f.insert(LangFlags::DISALLOW_INST_METH);
        } else {
            proof {
                lemma_u64_or_zero(f@);
            }
        }
        if self.contains(ParserFlags::DISABLE_XHP_ELEMENT_MANGLING) {
            f.insert(LangFlags::DISABLE_XHP_ELEMENT_MANGLING);
        } else {
            proof {
                lemma_u64_or_zero(f@);
            }
        }
        if self.contains(ParserFlags::DISALLOW_FUN_AND_CLS_METH_PSEUDO_FUNCS) {
            f.insert(LangFlags::DISALLOW_FUN_AND_CLS_METH_PSEUDO_FUNCS);
        } else {
            proof {
                lemma_u64_or_zero(f@);
            }
        }
        if self.contains(ParserFlags::DISALLOW_FUNC_PTRS_IN_CONSTANTS) {
            f.insert(LangFlags::DISALLOW_FUNC_PTRS_IN_CONSTANTS);
        } else {
            proof {
                lemma_u64_or_zero(f@);
            }
        }
        if self.contains(ParserFlags::ENABLE_ENUM_CLASSES) {
            f.insert(LangFlags::ENABLE_ENUM_CLASSES);
        } else {
            proof {
                lemma_u64_or_zero(f@);
            }
        }
        if self.contains(ParserFlags::ENABLE_XHP_CLASS_MODIFIER) {
            f.insert(LangFlags::ENABLE_XHP_CLASS_MODIFIER);
        } else {
            proof {
                lemma_u64_or_zero(f@);
            }
        }
        if self.contains(ParserFlags::ENABLE_CLASS_LEVEL_WHERE_CLAUSES) {
            f.insert(LangFlags::ENABLE_CLASS_LEVEL_WHERE_CLAUSES);
        } else {
            proof {
                lemma_u64_or_zero(f@);
            }
        }
        f
    }
}

/// The emitter flags that the environment flags select.
///
/// Each term stands for one flag: the target flag is set exactly when the source flag is.
pub open spec fn from_ast_bits_of(bits: u8) -> u8 {
    0
        | (if has_u8(bits, EnvFlags::IS_EVALED) { FromAstFlags::IS_EVALED } else { 0 })
        | (if has_u8(bits, EnvFlags::FOR_DEBUGGER_EVAL) {
            FromAstFlags::FOR_DEBUGGER_EVAL
        } else {
            0
        })
        | (if has_u8(bits, EnvFlags::IS_SYSTEMLIB) { FromAstFlags::IS_SYSTEMLIB } else { 0 })
}

impl EnvFlags {
    /// The emitter flags that the environment flags select.
    pub fn to_from_ast_flags(self) -> (r: FromAstFlags)
        ensures
            r@ == from_ast_bits_of(self@),
    {
        proof {
            FromAstFlags::lemma_flags_are_known();
        }
        let mut f = FromAstFlags::empty();
        if self.contains(EnvFlags::IS_EVALED) {
            f.insert(FromAstFlags::IS_EVALED);
        } else {
            proof {
                lemma_u8_or_zero(f@);
            }
        }
        if self.contains(EnvFlags::FOR_DEBUGGER_EVAL) {
            f.insert(FromAstFlags::FOR_DEBUGGER_EVAL);
        } else {
            proof {
                lemma_u8_or_zero(f@);
            }
        }
        if self.contains(EnvFlags::IS_SYSTEMLIB) {
            f.insert(FromAstFlags::IS_SYSTEMLIB);
        } else {
            proof {
                lemma_u8_or_zero(f@);
            }
        }
        f
    }
}

} // verus!

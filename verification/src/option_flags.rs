//! The option sets that the compiler's passes read.
use vstd::prelude::*;
use crate::bit_lemmas::{
    lemma_u8_and_within, lemma_u8_or_within,
    lemma_u8_self_within, lemma_u8_zero_within,
    lemma_u64_and_within, lemma_u64_or_within,
    lemma_u64_self_within, lemma_u64_zero_within,
};

verus! {

/// Options that select PHP 7 semantics.
///
/// A value holds a set of the flags below as the bits of a `u64`; it never holds a bit
/// that no flag defines.
#[derive(Clone, Copy, Debug, PartialEq, Eq, Structural, Hash)]
pub struct Php7Flags {
    bits: u64,
}

impl View for Php7Flags {
    type V = u64;

    closed spec fn view(&self) -> u64 {
        self.bits
    }
}

impl Php7Flags {
    /// Assignments are evaluated left to right.
    pub const LTR_ASSIGN: u64 = 1 << 0;

    /// Uniform variable syntax.
    pub const UVS: u64 = 1 << 1;

    /// The bits of every defined flag.
    pub const KNOWN_BITS: u64 = Self::LTR_ASSIGN | Self::UVS;

    #[verifier::type_invariant]
    closed spec fn holds_known_bits_only(self) -> bool {
        self.bits & !Self::KNOWN_BITS == 0
    }

    /// The set with no flag.
    pub fn empty() -> (r: Self)
        ensures
            r@ == 0,
    {
        proof {
            lemma_u64_zero_within(Self::KNOWN_BITS);
        }
        Self { bits: 0 }
    }

    /// The set of every defined flag.
    pub fn all() -> (r: Self)
        ensures
            r@ == Self::KNOWN_BITS,
    {
        proof {
            lemma_u64_self_within(Self::KNOWN_BITS);
        }
        Self { bits: Self::KNOWN_BITS }
    }

    /// The raw bits of the set.
    pub fn bits(&self) -> (r: u64)
        ensures
            r == self@,
            r & !Self::KNOWN_BITS == 0,
    {
        proof {
            use_type_invariant(self);
        }
        self.bits
    }

    /// The set with exactly the given bits, or `None` when a bit belongs to no flag.
    pub fn from_bits(bits: u64) -> (r: Option<Self>)
        ensures
            r is Some <==> bits & !Self::KNOWN_BITS == 0,
            r matches Some(f) ==> f@ == bits,
    {
        if bits & !Self::KNOWN_BITS == 0 {
            Some(Self { bits })
        } else {
            None
        }
    }

    /// The set of the given bits, with every bit that belongs to no flag dropped.
    pub fn from_bits_truncate(bits: u64) -> (r: Self)
        ensures
            r@ == bits & Self::KNOWN_BITS,
    {
        proof {
            lemma_u64_and_within(bits, Self::KNOWN_BITS);
        }
        Self { bits: bits & Self::KNOWN_BITS }
    }

    /// Whether every bit of `other` is in the set.
    pub fn contains(&self, other: u64) -> (r: bool)
        ensures
            r == (self@ & other == other),
    {
        self.bits & other == other
    }

    /// Adds the flags of `other` to the set.
    pub fn insert(&mut self, other: u64)
        requires
            other & !Self::KNOWN_BITS == 0,
        ensures
            final(self)@ == old(self)@ | other,
    {
        proof {
            use_type_invariant(&*self);
            lemma_u64_or_within(self.bits, other, Self::KNOWN_BITS);
        }
        self.bits = self.bits | other;
    }
}

impl Php7Flags {
    /// Each flag's bit is one of the known bits.
    pub proof fn lemma_flags_are_known()
        by (bit_vector)
        ensures
            Self::LTR_ASSIGN & !Self::KNOWN_BITS == 0,
            Self::UVS & !Self::KNOWN_BITS == 0,
    {
    }
}

/// Options of the virtual machine that the emitter reads.
///
/// A value holds a set of the flags below as the bits of a `u64`; it never holds a bit
/// that no flag defines.
#[derive(Clone, Copy, Debug, PartialEq, Eq, Structural, Hash)]
pub struct HhvmFlags {
    bits: u64,
}

impl View for HhvmFlags {
    type V = u64;

    closed spec fn view(&self) -> u64 {
        self.bits
    }
}

impl HhvmFlags {
    /// Arrays carry provenance.
    pub const ARRAY_PROVENANCE: u64 = 1 << 0;

    /// Class-method pointers are emitted.
    pub const EMIT_CLS_METH_POINTERS: u64 = 1 << 1;

    /// Method-caller function pointers are emitted.
    pub const EMIT_METH_CALLER_FUNC_POINTERS: u64 = 1 << 2;

    /// The implicit context is on.
    pub const ENABLE_IMPLICIT_CONTEXT: u64 = 1 << 3;

    /// The intrinsics extension is on.
    pub const ENABLE_INTRINSICS_EXTENSION: u64 = 1 << 4;

    /// Lazy class keys are folded.
    pub const FOLD_LAZY_CLASS_KEYS: u64 = 1 << 5;

    /// The JIT may rename functions.
    pub const JIT_ENABLE_RENAME_FUNCTION: u64 = 1 << 6;

    /// Compiler timings are logged.
    pub const LOG_EXTERN_COMPILER_PERF: u64 = 1 << 7;

    /// The bits of every defined flag.
    pub const KNOWN_BITS: u64 =
        Self::ARRAY_PROVENANCE | Self::EMIT_CLS_METH_POINTERS
        | Self::EMIT_METH_CALLER_FUNC_POINTERS | Self::ENABLE_IMPLICIT_CONTEXT
        | Self::ENABLE_INTRINSICS_EXTENSION | Self::FOLD_LAZY_CLASS_KEYS
        | Self::JIT_ENABLE_RENAME_FUNCTION | Self::LOG_EXTERN_COMPILER_PERF;

    #[verifier::type_invariant]
    closed spec fn holds_known_bits_only(self) -> bool {
        self.bits & !Self::KNOWN_BITS == 0
    }

    /// The set with no flag.
    pub fn empty() -> (r: Self)
        ensures
            r@ == 0,
    {
        proof {
            lemma_u64_zero_within(Self::KNOWN_BITS);
        }
        Self { bits: 0 }
    }

    /// The set of every defined flag.
    pub fn all() -> (r: Self)
        ensures
            r@ == Self::KNOWN_BITS,
    {
        proof {
            lemma_u64_self_within(Self::KNOWN_BITS);
        }
        Self { bits: Self::KNOWN_BITS }
    }

    /// The raw bits of the set.
    pub fn bits(&self) -> (r: u64)
        ensures
            r == self@,
            r & !Self::KNOWN_BITS == 0,
    {
        proof {
            use_type_invariant(self);
        }
        self.bits
    }

    /// The set with exactly the given bits, or `None` when a bit belongs to no flag.
    pub fn from_bits(bits: u64) -> (r: Option<Self>)
        ensures
            r is Some <==> bits & !Self::KNOWN_BITS == 0,
            r matches Some(f) ==> f@ == bits,
    {
        if bits & !Self::KNOWN_BITS == 0 {
            Some(Self { bits })
        } else {
            None
        }
    }

    /// The set of the given bits, with every bit that belongs to no flag dropped.
    pub fn from_bits_truncate(bits: u64) -> (r: Self)
        ensures
            r@ == bits & Self::KNOWN_BITS,
    {
        proof {
            lemma_u64_and_within(bits, Self::KNOWN_BITS);
        }
        Self { bits: bits & Self::KNOWN_BITS }
    }

    /// Whether every bit of `other` is in the set.
    pub fn contains(&self, other: u64) -> (r: bool)
        ensures
            r == (self@ & other == other),
    {
        self.bits & other == other
    }

    /// Adds the flags of `other` to the set.
    pub fn insert(&mut self, other: u64)
        requires
            other & !Self::KNOWN_BITS == 0,
        ensures
            final(self)@ == old(self)@ | other,
    {
        proof {
            use_type_invariant(&*self);
            lemma_u64_or_within(self.bits, other, Self::KNOWN_BITS);
        }
        self.bits = self.bits | other;
    }
}

impl HhvmFlags {
    /// Each flag's bit is one of the known bits.
    pub proof fn lemma_flags_are_known()
        by (bit_vector)
        ensures
            Self::ARRAY_PROVENANCE & !Self::KNOWN_BITS == 0,
            Self::EMIT_CLS_METH_POINTERS & !Self::KNOWN_BITS == 0,
            Self::EMIT_METH_CALLER_FUNC_POINTERS & !Self::KNOWN_BITS == 0,
            Self::ENABLE_IMPLICIT_CONTEXT & !Self::KNOWN_BITS == 0,
            Self::ENABLE_INTRINSICS_EXTENSION & !Self::KNOWN_BITS == 0,
            Self::FOLD_LAZY_CLASS_KEYS & !Self::KNOWN_BITS == 0,
            Self::JIT_ENABLE_RENAME_FUNCTION & !Self::KNOWN_BITS == 0,
            Self::LOG_EXTERN_COMPILER_PERF & !Self::KNOWN_BITS == 0,
    {
    }
}

/// Options of the repository.
///
/// A value holds a set of the flags below as the bits of a `u64`; it never holds a bit
/// that no flag defines.
#[derive(Clone, Copy, Debug, PartialEq, Eq, Structural, Hash)]
pub struct RepoFlags {
    bits: u64,
}

impl View for RepoFlags {
    type V = u64;

    closed spec fn view(&self) -> u64 {
        self.bits
    }
}

impl RepoFlags {
    /// The repository is authoritative.
    pub const AUTHORITATIVE: u64 = 1 << 0;

    /// The bits of every defined flag.
    pub const KNOWN_BITS: u64 = Self::AUTHORITATIVE;

    #[verifier::type_invariant]
    closed spec fn holds_known_bits_only(self) -> bool {
        self.bits & !Self::KNOWN_BITS == 0
    }

    /// The set with no flag.
    pub fn empty() -> (r: Self)
        ensures
            r@ == 0,
    {
        proof {
            lemma_u64_zero_within(Self::KNOWN_BITS);
        }
        Self { bits: 0 }
    }

    /// The set of every defined flag.
    pub fn all() -> (r: Self)
        ensures
            r@ == Self::KNOWN_BITS,
    {
        proof {
            lemma_u64_self_within(Self::KNOWN_BITS);
        }
        Self { bits: Self::KNOWN_BITS }
    }

    /// The raw bits of the set.
    pub fn bits(&self) -> (r: u64)
        ensures
            r == self@,
            r & !Self::KNOWN_BITS == 0,
    {
        proof {
            use_type_invariant(self);
        }
        self.bits
    }

    /// The set with exactly the given bits, or `None` when a bit belongs to no flag.
    pub fn from_bits(bits: u64) -> (r: Option<Self>)
        ensures
            r is Some <==> bits & !Self::KNOWN_BITS == 0,
            r matches Some(f) ==> f@ == bits,
    {
        if bits & !Self::KNOWN_BITS == 0 {
            Some(Self { bits })
        } else {
            None
        }
    }

    /// The set of the given bits, with every bit that belongs to no flag dropped.
    pub fn from_bits_truncate(bits: u64) -> (r: Self)
        ensures
            r@ == bits & Self::KNOWN_BITS,
    {
        proof {
            lemma_u64_and_within(bits, Self::KNOWN_BITS);
        }
        Self { bits: bits & Self::KNOWN_BITS }
    }

    /// Whether every bit of `other` is in the set.
    pub fn contains(&self, other: u64) -> (r: bool)
        ensures
            r == (self@ & other == other),
    {
        self.bits & other == other
    }

    /// Adds the flags of `other` to the set.
    pub fn insert(&mut self, other: u64)
        requires
            other & !Self::KNOWN_BITS == 0,
        ensures
            final(self)@ == old(self)@ | other,
    {
        proof {
            use_type_invariant(&*self);
            lemma_u64_or_within(self.bits, other, Self::KNOWN_BITS);
        }
        self.bits = self.bits | other;
    }
}

impl RepoFlags {
    /// Each flag's bit is one of the known bits.
    pub proof fn lemma_flags_are_known()
        by (bit_vector)
        ensures
            Self::AUTHORITATIVE & !Self::KNOWN_BITS == 0,
    {
    }
}

/// Options of the Hack language that the parser and the emitter read.
///
/// A value holds a set of the flags below as the bits of a `u64`; it never holds a bit
/// that no flag defines.
#[derive(Clone, Copy, Debug, PartialEq, Eq, Structural, Hash)]
pub struct LangFlags {
    bits: u64,
}

impl View for LangFlags {
    type V = u64;

    closed spec fn view(&self) -> u64 {
        self.bits
    }
}

impl LangFlags {
    /// Static properties may be abstract.
    pub const ABSTRACT_STATIC_PROPS: u64 = 1 << 0;

    /// The `@Attribute` syntax is accepted.
    pub const ALLOW_NEW_ATTRIBUTE_SYNTAX: u64 = 1 << 1;

    /// Unstable language features are accepted.
    pub const ALLOW_UNSTABLE_FEATURES: u64 = 1 << 2;

    /// Default arguments of functions must be constant.
    pub const CONST_DEFAULT_FUNC_ARGS: u64 = 1 << 3;

    /// Default arguments of lambdas must be constant.
    pub const CONST_DEFAULT_LAMBDA_ARGS: u64 = 1 << 4;

    /// Static properties may be constant.
    pub const CONST_STATIC_PROPS: u64 = 1 << 5;

    /// The `<<Attribute>>` syntax is refused.
    pub const DISABLE_LEGACY_ATTRIBUTE_SYNTAX: u64 = 1 << 6;

    /// The `@`-prefixed soft type hints are refused.
    pub const DISABLE_LEGACY_SOFT_TYPEHINTS: u64 = 1 << 7;

    /// An lvalue may not stand as an expression.
    pub const DISABLE_LVAL_AS_AN_EXPRESSION: u64 = 1 << 8;

    /// XHP element names are not mangled.
    pub const DISABLE_XHP_ELEMENT_MANGLING: u64 = 1 << 9;

    /// Function pointers may not stand in constants.
    pub const DISALLOW_FUNC_PTRS_IN_CONSTANTS: u64 = 1 << 10;

    /// `fun` and `class_meth` are refused.
    pub const DISALLOW_FUN_AND_CLS_METH_PSEUDO_FUNCS: u64 = 1 << 11;

    /// `inst_meth` is refused.
    pub const DISALLOW_INST_METH: u64 = 1 << 12;

    /// Class-level `where` clauses are accepted.
    pub const ENABLE_CLASS_LEVEL_WHERE_CLAUSES: u64 = 1 << 13;

    /// Enum classes are accepted.
    pub const ENABLE_ENUM_CLASSES: u64 = 1 << 14;

    /// The `xhp` class modifier is accepted.
    pub const ENABLE_XHP_CLASS_MODIFIER: u64 = 1 << 15;

    /// The bits of every defined flag.
    pub const KNOWN_BITS: u64 =
        Self::ABSTRACT_STATIC_PROPS | Self::ALLOW_NEW_ATTRIBUTE_SYNTAX
        | Self::ALLOW_UNSTABLE_FEATURES | Self::CONST_DEFAULT_FUNC_ARGS
        | Self::CONST_DEFAULT_LAMBDA_ARGS | Self::CONST_STATIC_PROPS
        | Self::DISABLE_LEGACY_ATTRIBUTE_SYNTAX | Self::DISABLE_LEGACY_SOFT_TYPEHINTS
        | Self::DISABLE_LVAL_AS_AN_EXPRESSION | Self::DISABLE_XHP_ELEMENT_MANGLING
        | Self::DISALLOW_FUNC_PTRS_IN_CONSTANTS | Self::DISALLOW_FUN_AND_CLS_METH_PSEUDO_FUNCS
        | Self::DISALLOW_INST_METH | Self::ENABLE_CLASS_LEVEL_WHERE_CLAUSES
        | Self::ENABLE_ENUM_CLASSES | Self::ENABLE_XHP_CLASS_MODIFIER;

    #[verifier::type_invariant]
    closed spec fn holds_known_bits_only(self) -> bool {
        self.bits & !Self::KNOWN_BITS == 0
    }

    /// The set with no flag.
    pub fn empty() -> (r: Self)
        ensures
            r@ == 0,
    {
        proof {
            lemma_u64_zero_within(Self::KNOWN_BITS);
        }
        Self { bits: 0 }
    }

    /// The set of every defined flag.
    pub fn all() -> (r: Self)
        ensures
            r@ == Self::KNOWN_BITS,
    {
        proof {
            lemma_u64_self_within(Self::KNOWN_BITS);
        }
        Self { bits: Self::KNOWN_BITS }
    }

    /// The raw bits of the set.
    pub fn bits(&self) -> (r: u64)
        ensures
            r == self@,
            r & !Self::KNOWN_BITS == 0,
    {
        proof {
            use_type_invariant(self);
        }
        self.bits
    }

    /// The set with exactly the given bits, or `None` when a bit belongs to no flag.
    pub fn from_bits(bits: u64) -> (r: Option<Self>)
        ensures
            r is Some <==> bits & !Self::KNOWN_BITS == 0,
            r matches Some(f) ==> f@ == bits,
    {
        if bits & !Self::KNOWN_BITS == 0 {
            Some(Self { bits })
        } else {
            None
        }
    }

    /// The set of the given bits, with every bit that belongs to no flag dropped.
    pub fn from_bits_truncate(bits: u64) -> (r: Self)
        ensures
            r@ == bits & Self::KNOWN_BITS,
    {
        proof {
            lemma_u64_and_within(bits, Self::KNOWN_BITS);
        }
        Self { bits: bits & Self::KNOWN_BITS }
    }

    /// Whether every bit of `other` is in the set.
    pub fn contains(&self, other: u64) -> (r: bool)
        ensures
            r == (self@ & other == other),
    {
        self.bits & other == other
    }

    /// Adds the flags of `other` to the set.
    pub fn insert(&mut self, other: u64)
        requires
            other & !Self::KNOWN_BITS == 0,
        ensures
            final(self)@ == old(self)@ | other,
    {
        proof {
            use_type_invariant(&*self);
            lemma_u64_or_within(self.bits, other, Self::KNOWN_BITS);
        }
        self.bits = self.bits | other;
    }
}

impl LangFlags {
    /// Each flag's bit is one of the known bits.
    pub proof fn lemma_flags_are_known()
        by (bit_vector)
        ensures
            Self::ABSTRACT_STATIC_PROPS & !Self::KNOWN_BITS == 0,
            Self::ALLOW_NEW_ATTRIBUTE_SYNTAX & !Self::KNOWN_BITS == 0,
            Self::ALLOW_UNSTABLE_FEATURES & !Self::KNOWN_BITS == 0,
            Self::CONST_DEFAULT_FUNC_ARGS & !Self::KNOWN_BITS == 0,
            Self::CONST_DEFAULT_LAMBDA_ARGS & !Self::KNOWN_BITS == 0,
            Self::CONST_STATIC_PROPS & !Self::KNOWN_BITS == 0,
            Self::DISABLE_LEGACY_ATTRIBUTE_SYNTAX & !Self::KNOWN_BITS == 0,
            Self::DISABLE_LEGACY_SOFT_TYPEHINTS & !Self::KNOWN_BITS == 0,
            Self::DISABLE_LVAL_AS_AN_EXPRESSION & !Self::KNOWN_BITS == 0,
            Self::DISABLE_XHP_ELEMENT_MANGLING & !Self::KNOWN_BITS == 0,
            Self::DISALLOW_FUNC_PTRS_IN_CONSTANTS & !Self::KNOWN_BITS == 0,
            Self::DISALLOW_FUN_AND_CLS_METH_PSEUDO_FUNCS & !Self::KNOWN_BITS == 0,
            Self::DISALLOW_INST_METH & !Self::KNOWN_BITS == 0,
            Self::ENABLE_CLASS_LEVEL_WHERE_CLAUSES & !Self::KNOWN_BITS == 0,
            Self::ENABLE_ENUM_CLASSES & !Self::KNOWN_BITS == 0,
            Self::ENABLE_XHP_CLASS_MODIFIER & !Self::KNOWN_BITS == 0,
    {
    }
}

/// Flags that the emitter reads when it turns an AST into a unit.
///
/// A value holds a set of the flags below as the bits of a `u8`; it never holds a bit
/// that no flag defines.
#[derive(Clone, Copy, Debug, PartialEq, Eq, Structural, Hash)]
pub struct FromAstFlags {
    bits: u8,
}

impl View for FromAstFlags {
    type V = u8;

    closed spec fn view(&self) -> u8 {
        self.bits
    }
}

impl FromAstFlags {
    /// The unit comes from `eval`.
    pub const IS_EVALED: u8 = 1 << 0;

    /// The unit is evaluated on behalf of the debugger.
    pub const FOR_DEBUGGER_EVAL: u8 = 1 << 1;

    /// The unit is part of the system library.
    pub const IS_SYSTEMLIB: u8 = 1 << 2;

    /// The bits of every defined flag.
    pub const KNOWN_BITS: u8 = Self::IS_EVALED | Self::FOR_DEBUGGER_EVAL | Self::IS_SYSTEMLIB;

    #[verifier::type_invariant]
    closed spec fn holds_known_bits_only(self) -> bool {
        self.bits & !Self::KNOWN_BITS == 0
    }

    /// The set with no flag.
    pub fn empty() -> (r: Self)
        ensures
            r@ == 0,
    {
        proof {
            lemma_u8_zero_within(Self::KNOWN_BITS);
        }
        Self { bits: 0 }
    }

    /// The set of every defined flag.
    pub fn all() -> (r: Self)
        ensures
            r@ == Self::KNOWN_BITS,
    {
        proof {
            lemma_u8_self_within(Self::KNOWN_BITS);
        }
        Self { bits: Self::KNOWN_BITS }
    }

    /// The raw bits of the set.
    pub fn bits(&self) -> (r: u8)
        ensures
            r == self@,
            r & !Self::KNOWN_BITS == 0,
    {
        proof {
            use_type_invariant(self);
        }
        self.bits
    }

    /// The set with exactly the given bits, or `None` when a bit belongs to no flag.
    pub fn from_bits(bits: u8) -> (r: Option<Self>)
        ensures
            r is Some <==> bits & !Self::KNOWN_BITS == 0,
            r matches Some(f) ==> f@ == bits,
    {
        if bits & !Self::KNOWN_BITS == 0 {
            Some(Self { bits })
        } else {
            None
        }
    }

    /// The set of the given bits, with every bit that belongs to no flag dropped.
    pub fn from_bits_truncate(bits: u8) -> (r: Self)
        ensures
            r@ == bits & Self::KNOWN_BITS,
    {
        proof {
            lemma_u8_and_within(bits, Self::KNOWN_BITS);
        }
        Self { bits: bits & Self::KNOWN_BITS }
    }

    /// Whether every bit of `other` is in the set.
    pub fn contains(&self, other: u8) -> (r: bool)
        ensures
            r == (self@ & other == other),
    {
        self.bits & other == other
    }

    /// Adds the flags of `other` to the set.
    pub fn insert(&mut self, other: u8)
        requires
            other & !Self::KNOWN_BITS == 0,
        ensures
            final(self)@ == old(self)@ | other,
    {
        proof {
            use_type_invariant(&*self);
            lemma_u8_or_within(self.bits, other, Self::KNOWN_BITS);
        }
        self.bits = self.bits | other;
    }
}

impl FromAstFlags {
    /// Each flag's bit is one of the known bits.
    pub proof fn lemma_flags_are_known()
        by (bit_vector)
        ensures
            Self::IS_EVALED & !Self::KNOWN_BITS == 0,
            Self::FOR_DEBUGGER_EVAL & !Self::KNOWN_BITS == 0,
            Self::IS_SYSTEMLIB & !Self::KNOWN_BITS == 0,
    {
    }
}

} // verus!

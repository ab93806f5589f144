//! Which error, if any, a parse of a source file reports.
//!
//! The parser hands back three lists of errors and, when lowering succeeded, a program.
//! Syntax errors come first, then low-priority errors, then naming errors (except the kinds
//! that the compiler tolerates), then a failure of the lowering itself.
use vstd::prelude::*;
use crate::option_flags::Php7Flags;

verus! {

/// The kind of a syntax error.
#[derive(Clone, Copy, Debug, PartialEq, Eq, Structural)]
pub enum ErrorType {
    /// An error in the syntax of the program.
    ParseError,
    /// An error that the runtime would raise when it ran the program.
    RuntimeError,
}

/// A naming error for a method declared without a visibility.
pub const METHOD_NEEDS_VISIBILITY: isize = 2086;

/// A naming error for an unsupported `as` in a trait use.
pub const UNSUPPORTED_TRAIT_USE_AS: isize = 2102;

/// A naming error for an unsupported `insteadof` in a trait use.
pub const UNSUPPORTED_INSTEAD_OF: isize = 2103;

/// The naming errors that do not stop compilation.
pub open spec fn is_tolerated_naming_error(code: isize) -> bool {
    code == METHOD_NEEDS_VISIBILITY || code == UNSUPPORTED_TRAIT_USE_AS || code
        == UNSUPPORTED_INSTEAD_OF
}

/// Exactly the naming errors with codes 2086, 2102 and 2103 are tolerated; every other
/// code is reported.
pub proof fn lemma_tolerated_naming_errors_are_exactly_three(code: isize)
    ensures
        is_tolerated_naming_error(code) <==> (code == 2086 || code == 2102 || code == 2103),
{
}

/// What a parse reports.
#[derive(Clone, Copy, Debug, PartialEq, Eq, Structural)]
pub enum ParseVerdict {
    /// The syntax error at `index` of the parser's list is reported, as a runtime error
    /// when `is_runtime_error` holds.
    SyntaxError { index: usize, is_runtime_error: bool },
    /// The first low-priority error is reported.
    LowPriorityError,
    /// The naming error at `index` of the parser's list is reported.
    NamingError { index: usize },
    /// The lowering failed, and its message is reported.
    LoweringError,
    /// The program parsed without an error to report.
    Parsed,
}

impl ParseVerdict {
    /// Whether the parser's peaks and arena volume go into the profile: they do once the
    /// parse got past its syntax and low-priority errors.
    pub fn records_parser_profile(&self) -> (r: bool)
        ensures
            r == !(*self is SyntaxError || *self is LowPriorityError),
    {
        match self {
            ParseVerdict::SyntaxError { .. } => false,
            ParseVerdict::LowPriorityError => false,
            _ => true,
        }
    }
}

/// `index` is the syntax error to report: the first runtime error if there is one, and
/// otherwise the first error.
pub open spec fn is_reported_syntax_error(
    errors: Seq<ErrorType>,
    index: int,
    is_runtime_error: bool,
) -> bool {
    &&& 0 <= index < errors.len()
    &&& is_runtime_error == (errors[index] == ErrorType::RuntimeError)
    &&& forall|j: int| 0 <= j < index ==> errors[j] != ErrorType::RuntimeError
    &&& !is_runtime_error ==> {
        &&& index == 0
        &&& forall|j: int| 0 <= j < errors.len() ==> errors[j] != ErrorType::RuntimeError
    }
}

/// `index` is the first naming error that compilation does not tolerate.
pub open spec fn is_reported_naming_error(codes: Seq<isize>, index: int) -> bool {
    &&& 0 <= index < codes.len()
    &&& !is_tolerated_naming_error(codes[index])
    &&& forall|j: int| 0 <= j < index ==> is_tolerated_naming_error(codes[j])
}

/// Every naming error is one that compilation tolerates.
pub open spec fn all_naming_errors_tolerated(codes: Seq<isize>) -> bool {
    forall|j: int| 0 <= j < codes.len() ==> is_tolerated_naming_error(codes[j])
}

/// The verdict on a parse, from the kinds of its syntax errors, the number of its
/// low-priority errors, the codes of its naming errors and whether lowering produced a
/// program.
pub open spec fn is_parse_verdict(
    syntax_errors: Seq<ErrorType>,
    lowpri_error_count: nat,
    naming_error_codes: Seq<isize>,
    lowered: bool,
    v: ParseVerdict,
) -> bool {
    if syntax_errors.len() > 0 {
        v matches ParseVerdict::SyntaxError { index, is_runtime_error }
            && is_reported_syntax_error(syntax_errors, index as int, is_runtime_error)
    } else if lowpri_error_count > 0 {
        v is LowPriorityError
    } else if !all_naming_errors_tolerated(naming_error_codes) {
        v matches ParseVerdict::NamingError { index } && is_reported_naming_error(
            naming_error_codes,
            index as int,
        )
    } else if lowered {
        v is Parsed
    } else {
        v is LoweringError
    }
}

/// The index of the syntax error to report, and whether it is a runtime error.
pub fn reported_syntax_error(errors: &[ErrorType]) -> (r: (usize, bool))
    requires
        errors@.len() > 0,
    ensures
        is_reported_syntax_error(errors@, r.0 as int, r.1),
        r.1 <==> exists|j: int| 0 <= j < errors@.len() && errors@[j] == ErrorType::RuntimeError,
        r.1 == (errors@[r.0 as int] == ErrorType::RuntimeError),
{
    let mut i: usize = 0;
    while i < errors.len()
        invariant
            0 <= i <= errors@.len(),
            forall|j: int| 0 <= j < i ==> errors@[j] != ErrorType::RuntimeError,
        decreases errors@.len() - i,
    {
        if errors[i] == ErrorType::RuntimeError {
            return (i, true);
        }
        i = i + 1;
    }
    (0, false)
}

/// The index of the first naming error that compilation does not tolerate, if any.
pub fn reported_naming_error(codes: &[isize]) -> (r: Option<usize>)
    ensures
        r matches Some(index) ==> is_reported_naming_error(codes@, index as int),
        r is None <==> all_naming_errors_tolerated(codes@),
        r is None <==> forall|j: int|
            0 <= j < codes@.len() ==> (codes@[j] == 2086 || codes@[j] == 2102 || codes@[j]
                == 2103),
{
    let mut i: usize = 0;
    while i < codes.len()
        invariant
            0 <= i <= codes@.len(),
            forall|j: int| 0 <= j < i ==> is_tolerated_naming_error(codes@[j]),
        decreases codes@.len() - i,
    {
        let code = codes[i];
        if code != METHOD_NEEDS_VISIBILITY && code != UNSUPPORTED_TRAIT_USE_AS && code
            != UNSUPPORTED_INSTEAD_OF {
            return Some(i);
        }
        i = i + 1;
    }
    None
}

/// Decides what a parse reports.
pub fn parse_verdict(
    syntax_errors: &[ErrorType],
    lowpri_error_count: usize,
    naming_error_codes: &[isize],
    lowered: bool,
) -> (v: ParseVerdict)
    ensures
        is_parse_verdict(
            syntax_errors@,
            lowpri_error_count as nat,
            naming_error_codes@,
            lowered,
            v,
        ),
{
    if syntax_errors.len() > 0 {
        let (index, is_runtime_error) = reported_syntax_error(syntax_errors);
        ParseVerdict::SyntaxError { index, is_runtime_error }
    } else if lowpri_error_count > 0 {
        ParseVerdict::LowPriorityError
    } else {
        match reported_naming_error(naming_error_codes) {
            Some(index) => ParseVerdict::NamingError { index },
            None => if lowered {
                ParseVerdict::Parsed
            } else {
                ParseVerdict::LoweringError
            },
        }
    }
}

/// The settings of the AST parser that the compiler fixes.
#[derive(Clone, Copy, Debug, PartialEq, Eq, Structural)]
pub struct AastSettings {
    /// The parser runs on behalf of code generation.
    pub codegen: bool,
    /// The parser gives up on the first error.
    pub fail_open: bool,
    /// PHP 5 compatibility mode.
    pub php5_compat_mode: bool,
    /// Errors are kept in the AST.
    pub keep_errors: bool,
    /// The file is part of the system library.
    pub is_systemlib: bool,
    /// Namespaces are elaborated.
    pub elaborate_namespaces: bool,
}

/// The parser settings for a file: code generation mode, no error recovery, no errors kept,
/// and PHP 5 compatibility exactly when uniform variable syntax is off.
pub fn aast_settings(php7_flags: Php7Flags, elaborate_namespaces: bool, is_systemlib: bool) -> (r:
    AastSettings)
    ensures
        r.codegen,
        !r.fail_open,
        r.php5_compat_mode == (php7_flags@ & Php7Flags::UVS != Php7Flags::UVS),
        !r.keep_errors,
        r.is_systemlib == is_systemlib,
        r.elaborate_namespaces == elaborate_namespaces,
{
    AastSettings {
        codegen: true,
        fail_open: false,
        php5_compat_mode: !php7_flags.contains(Php7Flags::UVS),
        keep_errors: false,
        is_systemlib,
        elaborate_namespaces,
    }
}

/// A parse with no syntax or low-priority error, whose naming errors include one with a
/// code other than 2086, 2102 and 2103, reports a naming error, and the first such one:
/// it neither compiles nor reports the lowering's failure.
pub proof fn lemma_untolerated_naming_error_is_reported(
    naming_error_codes: Seq<isize>,
    lowered: bool,
    v: ParseVerdict,
    j: int,
)
    requires
        is_parse_verdict(Seq::empty(), 0, naming_error_codes, lowered, v),
        0 <= j < naming_error_codes.len(),
        naming_error_codes[j] != 2086,
        naming_error_codes[j] != 2102,
        naming_error_codes[j] != 2103,
    ensures
        v matches ParseVerdict::NamingError { index } && index <= j && naming_error_codes[index as int]
            != 2086 && naming_error_codes[index as int] != 2102 && naming_error_codes[index as int]
            != 2103 && forall|k: int|
            0 <= k < index ==> (naming_error_codes[k] == 2086 || naming_error_codes[k] == 2102
                || naming_error_codes[k] == 2103),
{
    assert(!is_tolerated_naming_error(naming_error_codes[j]));
    if let ParseVerdict::NamingError { index } = v {
        if j < index {
            assert(is_tolerated_naming_error(naming_error_codes[j]));
        }
    }
}

/// The reported syntax error is a runtime error exactly when some syntax error is one; it is
/// then the first runtime error, and otherwise the first error.
pub proof fn lemma_runtime_syntax_errors_come_first(
    errors: Seq<ErrorType>,
    index: int,
    is_runtime_error: bool,
)
    requires
        is_reported_syntax_error(errors, index, is_runtime_error),
    ensures
        is_runtime_error <==> exists|j: int|
            0 <= j < errors.len() && errors[j] == ErrorType::RuntimeError,
        is_runtime_error ==> errors[index] == ErrorType::RuntimeError && forall|k: int|
            0 <= k < index ==> errors[k] == ErrorType::ParseError,
        !is_runtime_error ==> index == 0 && errors[0] == ErrorType::ParseError,
{
    if is_runtime_error {
        assert(errors[index] == ErrorType::RuntimeError);
        assert forall|k: int| 0 <= k < index implies errors[k] == ErrorType::ParseError by {
            assert(errors[k] != ErrorType::RuntimeError);
        }
    } else {
        assert(errors[0] != ErrorType::RuntimeError);
    }
}

} // verus!

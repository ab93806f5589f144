//! The input of a compilation and the settings that follow from it.
use vstd::prelude::*;
use vstd::string::StringExecFns;
use crate::flags::{hhvm_bits_of, lang_bits_of, php7_bits_of, repo_bits_of};
use crate::flags::{EnvFlags, HHBCFlags, ParserFlags};
use crate::option_flags::{HhvmFlags, LangFlags, Php7Flags, RepoFlags};

verus! {

/// The root that a relative path starts from.
#[derive(Clone, Copy, Debug, PartialEq, Eq, Structural, Hash)]
pub enum Prefix {
    Root,
    Hhi,
    Dummy,
    Tmp,
}

/// A path relative to one of the roots.
#[derive(Clone, Debug, PartialEq, Eq, Hash)]
pub struct RelativePath {
    pub prefix: Prefix,
    pub path: String,
}

/// Common input needed for compilation: the file, the configuration as JSON texts and as
/// `key=value` items, and the environment flags.
#[derive(Debug)]
pub struct Env {
    pub filepath: RelativePath,
    pub config_jsons: Vec<String>,
    pub config_list: Vec<String>,
    pub flags: EnvFlags,
}

/// The input of a compilation that the runtime hands over directly.
#[derive(Debug)]
pub struct NativeEnv {
    pub filepath: RelativePath,
    pub aliased_namespaces: String,
    pub include_roots: String,
    pub emit_class_pointers: i32,
    pub check_int_overflow: i32,
    pub hhbc_flags: HHBCFlags,
    pub parser_flags: ParserFlags,
    pub flags: EnvFlags,
}

/// The text of a digit.
pub open spec fn digit_char(d: nat) -> char {
    (('0' as int) + d) as char
}

/// The decimal digits of a natural number, with no leading zero.
pub open spec fn decimal_digits(n: nat) -> Seq<char>
    decreases n,
{
    if n < 10 {
        seq![digit_char(n)]
    } else {
        decimal_digits(n / 10).push(digit_char(n % 10))
    }
}

/// The decimal text of an integer: its digits, after a `-` when it is negative.
pub open spec fn decimal_text(i: int) -> Seq<char> {
    if i < 0 {
        seq!['-'] + decimal_digits((-i) as nat)
    } else {
        decimal_digits(i as nat)
    }
}

/// Whether `c` is one of the digits `0` to `9`.
pub open spec fn is_decimal_digit(c: char) -> bool {
    '0' as int <= c as int <= '9' as int
}

/// The number that a sequence of digits denotes, read from the left.
pub open spec fn digits_value(s: Seq<char>) -> int
    decreases s.len(),
{
    if s.len() == 0 {
        0
    } else {
        digits_value(s.drop_last()) * 10 + (s.last() as int - '0' as int)
    }
}

/// Whether `s` is a decimal numeral: an optional `-`, then at least one digit, with no
/// leading zero unless the numeral is a single digit.
pub open spec fn is_decimal_numeral(s: Seq<char>) -> bool {
    let digits = if s.len() > 0 && s[0] == '-' {
        s.drop_first()
    } else {
        s
    };
    &&& digits.len() > 0
    &&& forall|k: int| 0 <= k < digits.len() ==> is_decimal_digit(#[trigger] digits[k])
    &&& digits.len() > 1 ==> digits[0] != '0'
}

/// The number that a decimal numeral denotes.
pub open spec fn numeral_value(s: Seq<char>) -> int {
    if s.len() > 0 && s[0] == '-' {
        -digits_value(s.drop_first())
    } else {
        digits_value(s)
    }
}

/// The digit of `d` is the character `d` places after `0`.
proof fn lemma_digit_char(d: nat)
    requires
        d < 10,
    ensures
        digit_char(d) as int == '0' as int + d,
        is_decimal_digit(digit_char(d)),
{
    assert('0' as int == 48);
    assert('9' as int == 57);
}

/// The digits of a natural number are digits, with no leading zero, and read back as it.
proof fn lemma_decimal_digits_read_back(n: nat)
    ensures
        decimal_digits(n).len() > 0,
        forall|k: int|
            0 <= k < decimal_digits(n).len() ==> is_decimal_digit(#[trigger] decimal_digits(n)[k]),
        decimal_digits(n).len() > 1 ==> decimal_digits(n)[0] != '0',
        n >= 10 ==> decimal_digits(n).len() > 1,
        digits_value(decimal_digits(n)) == n,
    decreases n,
{
    if n < 10 {
        lemma_digit_char(n);
        assert(seq![digit_char(n)].drop_last() =~= Seq::<char>::empty());
        assert(digits_value(Seq::<char>::empty()) == 0);
    } else {
        let high = decimal_digits(n / 10);
        lemma_decimal_digits_read_back(n / 10);
        lemma_digit_char(n % 10);
        let d = digit_char(n % 10);
        assert(decimal_digits(n) == high.push(d));
        assert(high.push(d).drop_last() =~= high);
        assert forall|k: int| 0 <= k < high.push(d).len() implies is_decimal_digit(
            #[trigger] high.push(d)[k],
        ) by {
            if k < high.len() {
                assert(high.push(d)[k] == high[k]);
            }
        }
        assert(high.push(d)[0] == high[0]);
        if n / 10 < 10 {
            lemma_digit_char(n / 10);
            assert(high[0] == digit_char(n / 10));
            assert(high[0] as int != '0' as int);
        }
        assert(high.push(d)[0] != '0');
        assert(digits_value(high.push(d)) == digits_value(high) * 10 + (d as int - '0' as int));
        assert(n == (n / 10) * 10 + n % 10);
    }
}

/// The decimal text of every integer is a decimal numeral that reads back as that integer,
/// with a `-` exactly when the integer is negative.
pub proof fn lemma_decimal_text_reads_back(i: int)
    ensures
        is_decimal_numeral(decimal_text(i)),
        numeral_value(decimal_text(i)) == i,
        (decimal_text(i)[0] == '-') == (i < 0),
{
    if i < 0 {
        let digits = decimal_digits((-i) as nat);
        lemma_decimal_digits_read_back((-i) as nat);
        assert((seq!['-'] + digits).drop_first() =~= digits);
        assert((seq!['-'] + digits)[0] == '-');
    } else {
        lemma_decimal_digits_read_back(i as nat);
        assert(is_decimal_digit(decimal_digits(i as nat)[0]));
    }
}

/// The text of the digit `d`.
fn digit_str(d: u32) -> (s: &'static str)
    requires
        d < 10,
    ensures
        s@ == seq![digit_char(d as nat)],
{
    match d {
        0 => {
            proof {
                reveal_strlit("0");
            }
            "0"
        },
        1 => {
            proof {
                reveal_strlit("1");
            }
            "1"
        },
        2 => {
            proof {
                reveal_strlit("2");
            }
            "2"
        },
        3 => {
            proof {
                reveal_strlit("3");
            }
            "3"
        },
        4 => {
            proof {
                reveal_strlit("4");
            }
            "4"
        },
        5 => {
            proof {
                reveal_strlit("5");
            }
            "5"
        },
        6 => {
            proof {
                reveal_strlit("6");
            }
            "6"
        },
        7 => {
            proof {
                reveal_strlit("7");
            }
            "7"
        },
        8 => {
            proof {
                reveal_strlit("8");
            }
            "8"
        },
        _ => {
            proof {
                reveal_strlit("9");
            }
            "9"
        },
    }
}

/// The decimal digits of `n`, with no leading zero.
fn digits_string(n: u32) -> (s: String)
    ensures
        s@ == decimal_digits(n as nat),
    decreases n,
{
    if n < 10 {
        String::from_str(digit_str(n))
    } else {
        let mut s = digits_string(n / 10);
        s.append(digit_str(n % 10));
        s
    }
}

/// The decimal text of `i`, as `i32`'s `to_string` writes it: its digits, after a `-` when
/// it is negative.
pub fn decimal_string(i: i32) -> (s: String)
    ensures
        s@ == decimal_text(i as int),
        is_decimal_numeral(s@),
        numeral_value(s@) == i,
        (s@[0] == '-') == (i < 0),
{
    proof {
        lemma_decimal_text_reads_back(i as int);
    }
    if i < 0 {
        let magnitude: u32 = (0i64 - i as i64) as u32;
        let digits = digits_string(magnitude);
        let mut s = String::from_str("-");
        proof {
            reveal_strlit("-");
        }
        s.append(digits.as_str());
        s
    } else {
        digits_string(i as u32)
    }
}

/// The options that a native environment fixes, beside those of its configuration.
#[derive(Debug)]
pub struct NativeOptions {
    pub hhvm_flags: HhvmFlags,
    pub lang_flags: LangFlags,
    pub php7_flags: Php7Flags,
    pub repo_flags: RepoFlags,
    pub emit_class_pointers: String,
    pub check_int_overflow: String,
}

impl NativeEnv {
    /// The options that the runtime's flags and numbers select: the virtual machine,
    /// PHP 7 and repository options from the bytecode flags, the language options from the
    /// parser flags, and the two numeric settings as decimal text.
    pub fn native_options(&self) -> (r: NativeOptions)
        ensures
            r.hhvm_flags@ == hhvm_bits_of(self.hhbc_flags@),
            r.lang_flags@ == lang_bits_of(self.parser_flags@),
            r.php7_flags@ == php7_bits_of(self.hhbc_flags@),
            r.repo_flags@ == repo_bits_of(self.hhbc_flags@),
            r.emit_class_pointers@ == decimal_text(self.emit_class_pointers as int),
            r.check_int_overflow@ == decimal_text(self.check_int_overflow as int),
            is_decimal_numeral(r.emit_class_pointers@),
            numeral_value(r.emit_class_pointers@) == self.emit_class_pointers,
            is_decimal_numeral(r.check_int_overflow@),
            numeral_value(r.check_int_overflow@) == self.check_int_overflow,
    {
        let hhbc_flags = self.hhbc_flags;
        NativeOptions {
            hhvm_flags: hhbc_flags.to_hhvm_flags(),
            lang_flags: self.parser_flags.to_lang_flags(),
            php7_flags: hhbc_flags.to_php7_flags(),
            repo_flags: hhbc_flags.to_repo_flags(),
            emit_class_pointers: decimal_string(self.emit_class_pointers),
            check_int_overflow: decimal_string(self.check_int_overflow),
        }
    }
}

/// How a source text is compiled, as the environment flags select it.
#[derive(Clone, Copy, Debug, PartialEq, Eq, Structural)]
pub struct TextCompileSettings {
    /// Top-level namespaces are elaborated while parsing.
    pub elaborate_namespaces: bool,
    /// The unit is part of the system library.
    pub is_systemlib: bool,
    /// The unit is evaluated on behalf of the debugger.
    pub for_debugger_eval: bool,
}

impl EnvFlags {
    /// How a source text is compiled: namespaces are elaborated unless top-level
    /// elaboration is disabled, and the two other settings are the flags of the same name.
    pub fn text_compile_settings(self) -> (r: TextCompileSettings)
        ensures
            r.elaborate_namespaces == (self@ & EnvFlags::DISABLE_TOPLEVEL_ELABORATION
                != EnvFlags::DISABLE_TOPLEVEL_ELABORATION),
            r.is_systemlib == (self@ & EnvFlags::IS_SYSTEMLIB == EnvFlags::IS_SYSTEMLIB),
            r.for_debugger_eval == (self@ & EnvFlags::FOR_DEBUGGER_EVAL
                == EnvFlags::FOR_DEBUGGER_EVAL),
    {
        TextCompileSettings {
            elaborate_namespaces: !self.contains(EnvFlags::DISABLE_TOPLEVEL_ELABORATION),
            is_systemlib: self.contains(EnvFlags::IS_SYSTEMLIB),
            for_debugger_eval: self.contains(EnvFlags::FOR_DEBUGGER_EVAL),
        }
    }
}

/// The kind of a unit that only raises an error.
#[derive(Clone, Copy, Debug, PartialEq, Eq, Structural)]
pub enum FatalOp {
    Fatal,
    Parse,
    Runtime,
}

/// The kind of fatal unit that a parse error becomes: a runtime fatal for an error that the
/// runtime would raise, a parse fatal otherwise.
pub fn fatal_op_for(is_runtime_error: bool) -> (r: FatalOp)
    ensures
        r == (if is_runtime_error {
            FatalOp::Runtime
        } else {
            FatalOp::Parse
        }),
{
    if is_runtime_error {
        FatalOp::Runtime
    } else {
        FatalOp::Parse
    }
}

} // verus!

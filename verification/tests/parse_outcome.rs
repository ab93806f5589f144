use hackc_compile::option_flags::Php7Flags;
use hackc_compile::parse_outcome::{
    aast_settings, parse_verdict, reported_naming_error, reported_syntax_error, ErrorType,
    ParseVerdict, METHOD_NEEDS_VISIBILITY, UNSUPPORTED_INSTEAD_OF, UNSUPPORTED_TRAIT_USE_AS,
};

#[test]
fn first_runtime_error_is_reported() {
    let errors = [
        ErrorType::ParseError,
        ErrorType::RuntimeError,
        ErrorType::ParseError,
        ErrorType::RuntimeError,
    ];
    assert_eq!(reported_syntax_error(&errors), (1, true));
}

#[test]
fn first_syntax_error_is_reported_without_runtime_errors() {
    let errors = [ErrorType::ParseError, ErrorType::ParseError];
    assert_eq!(reported_syntax_error(&errors), (0, false));
}

#[test]
fn tolerated_naming_errors_are_skipped() {
    let codes = [METHOD_NEEDS_VISIBILITY, UNSUPPORTED_TRAIT_USE_AS, 4110, UNSUPPORTED_INSTEAD_OF];
    assert_eq!(reported_naming_error(&codes), Some(2));
    let tolerated = [UNSUPPORTED_INSTEAD_OF, METHOD_NEEDS_VISIBILITY];
    assert_eq!(reported_naming_error(&tolerated), None);
    assert_eq!(reported_naming_error(&[]), None);
}

#[test]
fn syntax_errors_come_before_everything_else() {
    let v = parse_verdict(&[ErrorType::ParseError], 3, &[2001], false);
    assert_eq!(v, ParseVerdict::SyntaxError { index: 0, is_runtime_error: false });
}

#[test]
fn low_priority_errors_come_before_naming_errors() {
    let v = parse_verdict(&[], 1, &[2001], true);
    assert_eq!(v, ParseVerdict::LowPriorityError);
}

#[test]
fn naming_errors_come_before_lowering_errors() {
    let v = parse_verdict(&[], 0, &[METHOD_NEEDS_VISIBILITY, 2001], false);
    assert_eq!(v, ParseVerdict::NamingError { index: 1 });
}

#[test]
fn lowering_error_is_reported_last() {
    let v = parse_verdict(&[], 0, &[UNSUPPORTED_TRAIT_USE_AS], false);
    assert_eq!(v, ParseVerdict::LoweringError);
}

#[test]
fn clean_parse_is_parsed() {
    assert_eq!(parse_verdict(&[], 0, &[], true), ParseVerdict::Parsed);
}

#[test]
fn php5_compat_mode_follows_uniform_variable_syntax() {
    let uvs = Php7Flags::all();
    let s = aast_settings(uvs, true, false);
    assert!(s.codegen);
    assert!(!s.fail_open);
    assert!(!s.php5_compat_mode);
    assert!(!s.keep_errors);
    assert!(!s.is_systemlib);
    assert!(s.elaborate_namespaces);
    let s = aast_settings(Php7Flags::empty(), false, true);
    assert!(s.php5_compat_mode);
    assert!(s.is_systemlib);
    assert!(!s.elaborate_namespaces);
}

#[test]
fn parser_profile_is_recorded_past_syntax_and_low_priority_errors() {
    assert!(!ParseVerdict::SyntaxError { index: 0, is_runtime_error: true }.records_parser_profile());
    assert!(!ParseVerdict::LowPriorityError.records_parser_profile());
    assert!(ParseVerdict::NamingError { index: 2 }.records_parser_profile());
    assert!(ParseVerdict::LoweringError.records_parser_profile());
    assert!(ParseVerdict::Parsed.records_parser_profile());
}

use hackc_compile::profile::ProfileCounters;

fn counters(base: i64, log_enabled: bool) -> ProfileCounters {
    ProfileCounters {
        parsing_bytes: base,
        codegen_bytes: base + 1,
        parse_peak: base + 2,
        lower_peak: base + 3,
        error_peak: base + 4,
        rewrite_peak: base + 5,
        emitter_peak: base + 6,
        log_enabled,
    }
}

#[test]
fn add_assign_sums_codegen_bytes_and_peaks() {
    let mut a = counters(10, false);
    a.add_assign(counters(100, true));
    assert_eq!(a.codegen_bytes, 111 + 1);
    assert_eq!(a.parse_peak, 12 + 102);
    assert_eq!(a.lower_peak, 13 + 103);
    assert_eq!(a.error_peak, 14 + 104);
    assert_eq!(a.rewrite_peak, 15 + 105);
    assert_eq!(a.emitter_peak, 16 + 106);
}

#[test]
fn add_assign_keeps_parsing_bytes_and_log_flag() {
    let mut a = counters(10, false);
    a.add_assign(counters(100, true));
    assert_eq!(a.parsing_bytes, 10);
    assert!(!a.log_enabled);
}

#[test]
fn add_is_add_assign() {
    let a = counters(1, true);
    let b = counters(2, false);
    let mut c = a;
    c.add_assign(b);
    assert_eq!(a.add(b), c);
}

#[test]
fn accumulating_is_associative() {
    let a = counters(1, true);
    let b = counters(20, false);
    let c = counters(300, false);
    assert_eq!(a.add(b).add(c), a.add(b.add(c)));
}

#[test]
fn adding_zero_changes_nothing() {
    let a = counters(7, true);
    let z = ProfileCounters { parsing_bytes: 99, log_enabled: false, ..ProfileCounters::default() };
    assert_eq!(a.add(z), a);
}

#[test]
fn negative_counters_are_summed_too() {
    let mut a = counters(-50, false);
    a.add_assign(counters(20, false));
    assert_eq!(a.codegen_bytes, -49 + 21);
}

#[test]
fn can_add_detects_overflow() {
    let a = counters(1, false);
    assert!(a.can_add(&counters(2, false)));
    let big = ProfileCounters { emitter_peak: i64::MAX, ..ProfileCounters::default() };
    assert!(!a.can_add(&big));
    let low = ProfileCounters { parse_peak: i64::MIN, ..ProfileCounters::default() };
    assert!(!counters(-5, false).can_add(&low));
    let huge_parse = ProfileCounters { parsing_bytes: i64::MAX, ..ProfileCounters::default() };
    assert!(a.can_add(&huge_parse));
}

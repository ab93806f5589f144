//! The counters of a compilation profile.
//!
//! A profile also holds times in seconds; those stay with the caller. The counters here are
//! the byte volumes and stack peaks, and whether timings are logged.
use vstd::prelude::*;

verus! {

/// The counters of a compilation profile.
#[derive(Clone, Copy, Debug, Default, PartialEq, Eq, Structural)]
pub struct ProfileCounters {
    /// Parser arena allocation volume in bytes.
    pub parsing_bytes: i64,
    /// Emitter arena allocation volume in bytes.
    pub codegen_bytes: i64,
    /// Peak stack size during parsing, before lowering.
    pub parse_peak: i64,
    /// Peak stack size during parsing and lowering.
    pub lower_peak: i64,
    pub error_peak: i64,
    /// Peak stack size during codegen.
    pub rewrite_peak: i64,
    pub emitter_peak: i64,
    /// Was the log_extern_compiler_perf flag set?
    pub log_enabled: bool,
}

/// The counters that accumulating two profiles sums; the parsing volume and the logging
/// flag are not among them.
pub open spec fn sums_fit(a: ProfileCounters, b: ProfileCounters) -> bool {
    &&& i64::MIN <= a.codegen_bytes + b.codegen_bytes <= i64::MAX
    &&& i64::MIN <= a.parse_peak + b.parse_peak <= i64::MAX
    &&& i64::MIN <= a.lower_peak + b.lower_peak <= i64::MAX
    &&& i64::MIN <= a.error_peak + b.error_peak <= i64::MAX
    &&& i64::MIN <= a.rewrite_peak + b.rewrite_peak <= i64::MAX
    &&& i64::MIN <= a.emitter_peak + b.emitter_peak <= i64::MAX
}

/// The counters of `a` after `b` is added to them: the byte volume of codegen and the five
/// peaks are summed; the parsing volume and the logging flag stay those of `a`.
pub open spec fn accumulated(a: ProfileCounters, b: ProfileCounters) -> ProfileCounters {
    ProfileCounters {
        parsing_bytes: a.parsing_bytes,
        codegen_bytes: (a.codegen_bytes + b.codegen_bytes) as i64,
        parse_peak: (a.parse_peak + b.parse_peak) as i64,
        lower_peak: (a.lower_peak + b.lower_peak) as i64,
        error_peak: (a.error_peak + b.error_peak) as i64,
        rewrite_peak: (a.rewrite_peak + b.rewrite_peak) as i64,
        emitter_peak: (a.emitter_peak + b.emitter_peak) as i64,
        log_enabled: a.log_enabled,
    }
}

impl ProfileCounters {
    /// Whether the counters of `p` can be added to these without overflow.
    pub fn can_add(&self, p: &ProfileCounters) -> (r: bool)
        ensures
            r == sums_fit(*self, *p),
    {
        self.codegen_bytes.checked_add(p.codegen_bytes).is_some() && self.parse_peak.checked_add(
            p.parse_peak,
        ).is_some() && self.lower_peak.checked_add(p.lower_peak).is_some()
            && self.error_peak.checked_add(p.error_peak).is_some() && self.rewrite_peak.checked_add(
            p.rewrite_peak,
        ).is_some() && self.emitter_peak.checked_add(p.emitter_peak).is_some()
    }

    /// Adds the counters of `p` to these.
    pub fn add_assign(&mut self, p: ProfileCounters)
        requires
            sums_fit(*old(self), p),
        ensures
            *final(self) == accumulated(*old(self), p),
    {
        self.codegen_bytes = self.codegen_bytes + p.codegen_bytes;
        self.parse_peak = self.parse_peak + p.parse_peak;
        self.lower_peak = self.lower_peak + p.lower_peak;
        self.error_peak = self.error_peak + p.error_peak;
        self.rewrite_peak = self.rewrite_peak + p.rewrite_peak;
        self.emitter_peak = self.emitter_peak + p.emitter_peak;
    }

    /// The counters of `self` with those of `p` added.
    pub fn add(self, p: ProfileCounters) -> (r: ProfileCounters)
        requires
            sums_fit(self, p),
        ensures
            r == accumulated(self, p),
    {
        let mut r = self;
        r.add_assign(p);
        r
    }
}

/// Accumulating is associative: adding `b` and then `c` to `a` gives what adding the sum of
/// `b` and `c` to `a` gives.
pub proof fn lemma_accumulated_associative(
    a: ProfileCounters,
    b: ProfileCounters,
    c: ProfileCounters,
)
    requires
        sums_fit(a, b),
        sums_fit(b, c),
        sums_fit(accumulated(a, b), c),
    ensures
        sums_fit(a, accumulated(b, c)),
        accumulated(accumulated(a, b), c) == accumulated(a, accumulated(b, c)),
{
}

/// The summed counters do not depend on the order of the two profiles; the parsing volume
/// and the logging flag come from the left one.
pub proof fn lemma_accumulated_commutes_on_sums(a: ProfileCounters, b: ProfileCounters)
    requires
        sums_fit(a, b),
    ensures
        sums_fit(b, a),
        accumulated(a, b) == (ProfileCounters {
            parsing_bytes: a.parsing_bytes,
            log_enabled: a.log_enabled,
            ..accumulated(b, a)
        }),
{
}

/// Adding a profile whose counters are all zero changes nothing.
pub proof fn lemma_accumulated_zero(a: ProfileCounters, z: ProfileCounters)
    requires
        z.codegen_bytes == 0,
        z.parse_peak == 0,
        z.lower_peak == 0,
        z.error_peak == 0,
        z.rewrite_peak == 0,
        z.emitter_peak == 0,
    ensures
        sums_fit(a, z),
        accumulated(a, z) == a,
{
}

} // verus!

//! Spans of time with nanosecond resolution, as whole numbers.

use vstd::prelude::*;

verus! {

/// Nanoseconds in one second.
pub const NANOS_PER_SEC: u32 = 1_000_000_000;

/// Nanoseconds in one millisecond.
pub const NANOS_PER_MILLI: u32 = 1_000_000;

/// A span of time: whole seconds and the nanoseconds beyond them.
///
/// It serves both as a length of time and as a point on the system clock,
/// counted from the clock's origin.
#[derive(Clone, Copy, Debug, PartialEq, Eq, Structural)]
pub struct Duration {
    secs: u64,
    nanos: u32,
}

impl View for Duration {
    type V = nat;

    /// The span in nanoseconds.
    open spec fn view(&self) -> nat {
        (self.spec_as_secs() * NANOS_PER_SEC + self.spec_subsec_nanos()) as nat
    }
}

impl Duration {
    /// The whole seconds of the span.
    pub closed spec fn spec_as_secs(&self) -> u64 {
        self.secs
    }

    /// The nanoseconds beyond the whole seconds.
    pub closed spec fn spec_subsec_nanos(&self) -> u32 {
        self.nanos
    }

    /// Whether the nanoseconds stay below one second, as they do in every
    /// span that this module makes.
    pub open spec fn wf(&self) -> bool {
        self.spec_subsec_nanos() < NANOS_PER_SEC
    }

    /// A span of `secs` seconds and `nanos` nanoseconds, with `nanos` below one second.
    pub fn new(secs: u64, nanos: u32) -> (d: Self)
        requires
            nanos < NANOS_PER_SEC,
        ensures
            d.wf(),
            d.spec_as_secs() == secs,
            d.spec_subsec_nanos() == nanos,
    {
        Duration { secs, nanos }
    }

    /// The span of `secs` whole seconds.
    pub closed spec fn spec_from_secs(secs: u64) -> Duration {
        Duration { secs, nanos: 0 }
    }

    /// A span of `secs` whole seconds.
    #[verifier::when_used_as_spec(spec_from_secs)]
    pub fn from_secs(secs: u64) -> (d: Self)
        ensures
            d.wf(),
            d == Duration::spec_from_secs(secs),
            d.spec_as_secs() == secs,
            d.spec_subsec_nanos() == 0,
    {
        Duration { secs, nanos: 0 }
    }

    /// A span of `millis` milliseconds.
    pub fn from_millis(millis: u64) -> (d: Self)
        ensures
            d.wf(),
            d.spec_as_secs() == millis / 1000,
            d.spec_subsec_nanos() == (millis % 1000) * NANOS_PER_MILLI,
            d@ == millis * NANOS_PER_MILLI,
    {
        let rest: u64 = millis % 1000;
        let nanos: u32 = (rest as u32) * NANOS_PER_MILLI;
        Duration { secs: millis / 1000, nanos }
    }

    /// The whole seconds of the span.
    #[verifier::when_used_as_spec(spec_as_secs)]
    pub fn as_secs(&self) -> (secs: u64)
        ensures
            secs == self.spec_as_secs(),
    {
        self.secs
    }

    /// The nanoseconds beyond the whole seconds.
    #[verifier::when_used_as_spec(spec_subsec_nanos)]
    pub fn subsec_nanos(&self) -> (nanos: u32)
        ensures
            nanos == self.spec_subsec_nanos(),
    {
        self.nanos
    }

    /// The span in nanoseconds.
    pub fn as_nanos(&self) -> (nanos: u128)
        ensures
            nanos == self@,
    {
        let secs: u128 = self.secs as u128;
        secs * 1_000_000_000 + self.nanos as u128
    }
}

/// A span of whole seconds has exactly those seconds and nothing beyond.
pub broadcast proof fn lemma_from_secs(secs: u64)
    ensures
        (#[trigger] Duration::spec_from_secs(secs)).spec_as_secs() == secs,
        Duration::spec_from_secs(secs).spec_subsec_nanos() == 0,
{
}

/// Two spans with the same seconds and nanoseconds are the same span.
pub proof fn lemma_duration_by_parts(a: Duration, b: Duration)
    requires
        a.spec_as_secs() == b.spec_as_secs(),
        a.spec_subsec_nanos() == b.spec_subsec_nanos(),
    ensures
        a == b,
{
}

/// Two well-formed spans of the same length are the same span: `==` on
/// spans compares their lengths.
pub proof fn lemma_duration_by_view(a: Duration, b: Duration)
    requires
        a.wf(),
        b.wf(),
        a@ == b@,
    ensures
        a == b,
{
}

} // verus!

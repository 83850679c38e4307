//! Spans of time, to the nanosecond.

use vstd::prelude::*;

verus! {

/// Nanoseconds in a second.
pub const NANOS_PER_SEC: u64 = 1_000_000_000;

/// A span of time of up to `u64::MAX` whole seconds and a fraction.
#[derive(Debug, Clone, Copy, PartialEq, Eq, Structural)]
pub struct Duration {
    secs: u64,
    subsec_nanos: u32,
}

impl View for Duration {
    type V = nat;

    /// The length in nanoseconds.
    closed spec fn view(&self) -> nat {
        (self.secs * NANOS_PER_SEC + self.subsec_nanos) as nat
    }
}

/// What the `Debug` text of `std::time::Duration` is for whole seconds and a fraction.
pub uninterp spec fn duration_text(secs: u64, subsec_nanos: u32) -> Seq<char>;

/// The text of a span of so many nanoseconds.
pub open spec fn span_text(nanos: nat) -> Seq<char> {
    duration_text(
        (nanos / (NANOS_PER_SEC as nat)) as u64,
        (nanos % (NANOS_PER_SEC as nat)) as u32,
    )
}

/// Formats a `std::time::Duration` with `{:?}`; the result is named by [`duration_text`].
#[verifier::external_body]
fn debug_text(secs: u64, subsec_nanos: u32) -> (r: String)
    requires
        subsec_nanos < NANOS_PER_SEC,
    ensures
        r@ == duration_text(secs, subsec_nanos),
{
    format!("{:?}", std::time::Duration::new(secs, subsec_nanos))
}

/// The longest span, in nanoseconds.
pub open spec fn max_nanos() -> nat {
    (u64::MAX * NANOS_PER_SEC + (NANOS_PER_SEC - 1)) as nat
}

impl Duration {
    #[verifier::type_invariant]
    spec fn inv(self) -> bool {
        self.subsec_nanos < NANOS_PER_SEC
    }

    /// A span of whole seconds.
    pub fn from_secs(secs: u64) -> (r: Duration)
        ensures
            r@ == secs * NANOS_PER_SEC,
    {
        Duration { secs, subsec_nanos: 0 }
    }

    /// A span of whole milliseconds.
    pub fn from_millis(millis: u64) -> (r: Duration)
        ensures
            r@ == millis * 1_000_000,
    {
        Duration { secs: millis / 1000, subsec_nanos: ((millis % 1000) * 1_000_000) as u32 }
    }

    /// A span of nanoseconds.
    pub fn from_nanos(nanos: u64) -> (r: Duration)
        ensures
            r@ == nanos,
    {
        Duration {
            secs: nanos / NANOS_PER_SEC,
            subsec_nanos: (nanos % NANOS_PER_SEC) as u32,
        }
    }

    /// A span of nanoseconds, or the longest span where there are more.
    pub fn from_total_nanos(nanos: u128) -> (r: Duration)
        ensures
            r@ == (if nanos <= max_nanos() {
                nanos as nat
            } else {
                max_nanos()
            }),
    {
        let longest: u128 = 0xffff_ffff_ffff_ffffu128 * 1_000_000_000u128 + 999_999_999u128;
        let held: u128 = if nanos <= longest {
            nanos
        } else {
            longest
        };
        Duration {
            secs: (held / 1_000_000_000u128) as u64,
            subsec_nanos: (held % 1_000_000_000u128) as u32,
        }
    }

    /// The length in nanoseconds.
    pub fn as_nanos(&self) -> (r: u128)
        ensures
            r == self@,
            self@ <= max_nanos(),
    {
        proof {
            use_type_invariant(&*self);
        }
        self.secs as u128 * 1_000_000_000u128 + self.subsec_nanos as u128
    }

    /// The whole seconds.
    pub fn as_secs(&self) -> (r: u64)
        ensures
            r == self@ / (NANOS_PER_SEC as nat),
    {
        proof {
            use_type_invariant(&*self);
        }
        self.secs
    }

    /// The length in the form of `{:?}`, such as `1.5s`.
    pub fn debug_text(&self) -> (r: String)
        ensures
            r@ == span_text(self@),
    {
        proof {
            use_type_invariant(&*self);
        }
        debug_text(self.secs, self.subsec_nanos)
    }
}

} // verus!

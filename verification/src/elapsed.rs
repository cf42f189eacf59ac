//! Spans of time, and how they are written.
use vstd::prelude::*;

verus! {

/// A span of time.
#[derive(Clone, Copy, Debug, PartialEq, Eq)]
pub struct Elapsed {
    pub secs: u64,
    /// Below one second.
    pub nanos: u32,
}

/// How `std::time::Duration` writes a span of `secs` seconds and `nanos`
/// nanoseconds for debugging, with one digit behind the point.
pub uninterp spec fn elapsed_text(secs: u64, nanos: u32) -> Seq<char>;

/// Calls the `Debug` formatting of `std::time::Duration`, with a precision of 1.
/// Claims that the text depends on the span alone; what it reads is not said
/// here. `Duration::new` carries whole seconds over from the nanoseconds, and
/// panics where there is no room for them: below one second it has none to carry.
#[verifier::external_body]
fn format_duration(secs: u64, nanos: u32) -> (r: String)
    requires
        nanos < 1_000_000_000,
    ensures
        r@ == elapsed_text(secs, nanos),
{
    format!("{:.1?}", std::time::Duration::new(secs, nanos))
}

impl Elapsed {
    pub open spec fn wf(self) -> bool {
        self.nanos < 1_000_000_000
    }

    pub open spec fn text(self) -> Seq<char> {
        elapsed_text(self.secs, self.nanos)
    }

    /// The span in writing, with one digit behind the point.
    pub fn to_text(&self) -> (r: String)
        requires
            self.wf(),
        ensures
            r@ == elapsed_text(self.secs, self.nanos),
    {
        format_duration(self.secs, self.nanos)
    }
}

} // verus!

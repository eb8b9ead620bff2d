use vstd::prelude::*;

verus! {

/// An opaque source-location tag. `CallSite` is the distinguished location of
/// the point where the expanding macro was itself invoked; `Site` carries a
/// host-assigned handle identifying any other position in the source text.
/// The library never inspects a location beyond telling it apart from others:
/// it only passes locations through onto the tokens it builds.
#[derive(Clone, Copy, PartialEq, Eq, Structural, Debug)]
pub enum Span {
    CallSite,
    Site(u64),
}

/// A pair of source locations delimiting the span a diagnostic underlines.
/// No ordering between `start` and `end` is required or checked.
#[derive(Clone, Copy, PartialEq, Eq, Structural, Debug)]
pub struct SpanRange {
    pub start: Span,
    pub end: Span,
}

/// The degenerate range anchored at a single location.
pub open spec fn degenerate(l: Span) -> SpanRange {
    SpanRange { start: l, end: l }
}

impl SpanRange {
    /// A range with explicitly given endpoints.
    pub fn new(start: Span, end: Span) -> (r: SpanRange)
        ensures
            r == (SpanRange { start, end }),
    {
        SpanRange { start, end }
    }

    /// The default range: both endpoints at the macro call site.
    pub fn call_site() -> (r: SpanRange)
        ensures
            r == degenerate(Span::CallSite),
            r.start == Span::CallSite,
            r.end == Span::CallSite,
    {
        SpanRange { start: Span::CallSite, end: Span::CallSite }
    }
}

impl From<Span> for SpanRange {
    /// A single location widens to the degenerate range with both ends there.
    fn from(span: Span) -> (r: SpanRange) {
        SpanRange { start: span, end: span }
    }
}

impl vstd::std_specs::convert::FromSpecImpl<Span> for SpanRange {
    open spec fn obeys_from_spec() -> bool {
        true
    }

    open spec fn from_spec(v: Span) -> SpanRange {
        degenerate(v)
    }
}

} // verus!

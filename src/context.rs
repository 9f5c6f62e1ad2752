//! The causal identity of one unit of work.

use vstd::prelude::*;

verus! {

/// Identifies one causal chain (`trace_id`) and one position in it (`span_id`).
#[derive(Clone, Copy, Debug, PartialEq, Eq)]
pub struct TraceContext {
    pub trace_id: u128,
    pub span_id: u64,
    pub parent_span_id: Option<u64>,
    pub sampled: bool,
}

impl TraceContext {
    /// Both identifiers are non-zero, as the wire format demands.
    pub open spec fn valid(self) -> bool {
        self.trace_id != 0 && self.span_id != 0
    }

    /// The same identity with the parent link dropped: what another process
    /// learns of this context.
    pub open spec fn remote(self) -> TraceContext {
        TraceContext { parent_span_id: None, ..self }
    }

    pub fn is_valid(&self) -> (r: bool)
        ensures
            r == self.valid(),
    {
        self.trace_id != 0 && self.span_id != 0
    }
}

} // verus!

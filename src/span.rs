//! Spans: named units of recorded work, with their lifecycle rules.

use vstd::prelude::*;
use crate::context::TraceContext;
use crate::ids::{fresh_span_id, fresh_trace_id};
use crate::keyed::{entries_map, keys_unique, lookup, put_entry, Entry};

verus! {

/// A scalar attribute value.
#[derive(Clone, Debug, PartialEq)]
pub enum AttrValue {
    Str(String),
    Int(i64),
    Bool(bool),
}

/// An attribute value as a mathematical value.
pub enum AttrView {
    Str(Seq<char>),
    Int(i64),
    Bool(bool),
}

impl View for AttrValue {
    type V = AttrView;

    open spec fn view(&self) -> AttrView {
        match self {
            AttrValue::Str(s) => AttrView::Str(s@),
            AttrValue::Int(i) => AttrView::Int(*i),
            AttrValue::Bool(b) => AttrView::Bool(*b),
        }
    }
}

/// The outcome recorded on a span.
#[derive(Clone, Copy, Debug, PartialEq, Eq, Structural)]
pub enum SpanStatus {
    Unset,
    Success,
    Error,
}

/// What a span holds, as mathematical values.
pub struct SpanView {
    pub name: Seq<char>,
    pub context: TraceContext,
    pub start_time: u64,
    pub end_time: Option<u64>,
    pub attributes: Map<Seq<char>, AttrView>,
    pub status: SpanStatus,
    pub status_message: Option<Seq<char>>,
}

impl SpanView {
    pub open spec fn closed(self) -> bool {
        self.end_time is Some
    }

    /// An open span with no status yet, holding the given attributes.
    pub open spec fn started(
        self,
        name: Seq<char>,
        context: TraceContext,
        now: u64,
        attributes: Map<Seq<char>, AttrView>,
    ) -> bool {
        &&& self.name == name
        &&& self.context == context
        &&& self.start_time == now
        &&& self.end_time is None
        &&& self.attributes == attributes
        &&& self.status == SpanStatus::Unset
        &&& self.status_message is None
    }

    /// A span that was just opened.
    pub open spec fn fresh(self, name: Seq<char>, context: TraceContext, now: u64) -> bool {
        self.started(name, context, now, Map::<Seq<char>, AttrView>::empty())
    }
}

/// The context of a span opened under `parent` with the given fresh
/// identifiers: a child of `parent` in its trace, or a sampled root.
pub open spec fn child_context(parent: Option<TraceContext>, trace_id: u128, span_id: u64) -> TraceContext {
    match parent {
        Some(p) => TraceContext {
            trace_id: p.trace_id,
            span_id,
            parent_span_id: Some(p.span_id),
            sampled: p.sampled,
        },
        None => TraceContext { trace_id, span_id, parent_span_id: None, sampled: true },
    }
}

/// One unit of recorded work, owned by the task that performs it.
pub struct Span {
    name: String,
    context: TraceContext,
    start_time: u64,
    end_time: Option<u64>,
    attributes: Vec<Entry<AttrValue>>,
    status: SpanStatus,
    status_message: Option<String>,
}

impl View for Span {
    type V = SpanView;

    closed spec fn view(&self) -> SpanView {
        SpanView {
            name: self.name@,
            context: self.context,
            start_time: self.start_time,
            end_time: self.end_time,
            attributes: entries_map(self.attributes@).map_values(|v: AttrValue| v@),
            status: self.status,
            status_message: match self.status_message {
                Some(m) => Some(m@),
                None => None,
            },
        }
    }
}

impl Span {
    /// The span's identity is valid, its attribute keys are unique, a status
    /// message goes only with an error, and it does not end before it starts.
    pub closed spec fn wf(&self) -> bool {
        &&& self.context.valid()
        &&& keys_unique(self.attributes@)
        &&& (self.status_message is Some ==> self.status == SpanStatus::Error)
        &&& (self.end_time matches Some(e) ==> e >= self.start_time)
    }

    /// Opens a span with the given fresh identifiers at time `now`.
    pub fn start_with_ids(
        name: String,
        parent: Option<TraceContext>,
        trace_id: u128,
        span_id: u64,
        now: u64,
    ) -> (r: Span)
        requires
            trace_id != 0,
            span_id != 0,
            parent matches Some(p) ==> p.valid(),
        ensures
            r.wf(),
            r@.fresh(name@, child_context(parent, trace_id, span_id), now),
    {
        let context = match parent {
            Some(p) => TraceContext {
                trace_id: p.trace_id,
                span_id,
                parent_span_id: Some(p.span_id),
                sampled: p.sampled,
            },
            None => TraceContext { trace_id, span_id, parent_span_id: None, sampled: true },
        };
        let r = Span {
            name,
            context,
            start_time: now,
            end_time: None,
            attributes: Vec::new(),
            status: SpanStatus::Unset,
            status_message: None,
        };
        assert(r@.attributes =~= Map::<Seq<char>, AttrView>::empty());
        r
    }

    /// Opens a span at time `now` with freshly drawn identifiers: a child of
    /// `parent` when there is one, with a span id other than the parent's, or
    /// a new root otherwise.
    pub fn start_span(name: String, parent: Option<TraceContext>, now: u64) -> (r: Span)
        requires
            parent matches Some(p) ==> p.valid(),
        ensures
            r.wf(),
            parent matches Some(p) ==> r@.context.span_id != p.span_id,
            exists|t: u128, s: u64|
                t != 0 && s != 0 && r@.fresh(name@, #[trigger] child_context(parent, t, s), now),
    {
        let t = fresh_trace_id();
        let mut s = fresh_span_id();
        if let Some(p) = parent {
            if s == p.span_id {
                s = if s == u64::MAX {
                    1
                } else {
                    s + 1
                };
            }
        }
        let r = Span::start_with_ids(name, parent, t, s, now);
        assert(r@.fresh(name@, child_context(parent, t, s), now));
        r
    }

    /// The span's own context, to hand to a child or to a carrier.
    pub fn context(&self) -> (r: TraceContext)
        requires
            self.wf(),
        ensures
            r == self@.context,
            r.valid(),
    {
        self.context
    }

    pub fn name(&self) -> (r: &String)
        ensures
            r@ == self@.name,
    {
        &self.name
    }

    pub fn start_time(&self) -> (r: u64)
        ensures
            r == self@.start_time,
    {
        self.start_time
    }

    pub fn end_time(&self) -> (r: Option<u64>)
        ensures
            r == self@.end_time,
    {
        self.end_time
    }

    pub fn is_closed(&self) -> (r: bool)
        ensures
            r == self@.closed(),
    {
        self.end_time.is_some()
    }

    pub fn status(&self) -> (r: SpanStatus)
        ensures
            r == self@.status,
    {
        self.status
    }

    pub fn status_message(&self) -> (r: Option<String>)
        ensures
            r matches Some(m) ==> self@.status_message == Some(m@),
            r is None ==> self@.status_message is None,
    {
        match &self.status_message {
            Some(m) => Some(m.clone()),
            None => None,
        }
    }

    /// The value recorded under `key`.
    pub fn attribute(&self, key: &str) -> (r: Option<AttrValue>)
        requires
            self.wf(),
        ensures
            r matches Some(v) ==> self@.attributes.contains_key(key@) && self@.attributes[key@]
                == v@,
            r is None ==> !self@.attributes.contains_key(key@),
    {
        match lookup(&self.attributes, key) {
            Some(v) => Some(v.clone_value()),
            None => None,
        }
    }

    /// Every recorded attribute, once each.
    pub fn attribute_entries(&self) -> (r: Vec<(String, AttrValue)>)
        requires
            self.wf(),
        ensures
            r@.len() == self@.attributes.dom().len(),
            forall|i: int|
                0 <= i < r@.len() ==> self@.attributes.contains_key(#[trigger] r@[i].0@)
                    && self@.attributes[r@[i].0@] == r@[i].1@,
            forall|i: int, j: int| 0 <= i < j < r@.len() ==> r@[i].0@ != r@[j].0@,
    {
        proof {
            crate::keyed::lemma_entries_map_len(self.attributes@);
            assert(self@.attributes.dom() =~= entries_map(self.attributes@).dom());
        }
        let mut out: Vec<(String, AttrValue)> = Vec::new();
        let mut i: usize = 0;
        while i < self.attributes.len()
            invariant
                self.wf(),
                i <= self.attributes@.len(),
                out@.len() == i,
                forall|j: int|
                    0 <= j < i ==> out@[j].0@ == self.attributes@[j].key@ && out@[j].1@
                        == self.attributes@[j].value@,
            decreases self.attributes@.len() - i,
        {
            let e = &self.attributes[i];
            out.push((e.key.clone(), e.value.clone_value()));
            i = i + 1;
        }
        proof {
            assert forall|j: int| 0 <= j < out@.len() implies self@.attributes.contains_key(
                #[trigger] out@[j].0@,
            ) && self@.attributes[out@[j].0@] == out@[j].1@ by {
                crate::keyed::lemma_entries_map_at(self.attributes@, j);
            }
        }
        out
    }

    /// Records `value` under `key` (last write wins); no effect once closed.
    pub fn record_attribute(&mut self, key: String, value: AttrValue)
        requires
            old(self).wf(),
        ensures
            final(self).wf(),
            old(self)@.closed() ==> final(self)@ == old(self)@,
            !old(self)@.closed() ==> final(self)@ == (SpanView {
                attributes: old(self)@.attributes.insert(key@, value@),
                ..old(self)@
            }),
    {
        if self.end_time.is_none() {
            let ghost k = key@;
            let ghost v = value;
            put_entry(&mut self.attributes, key, value);
            assert(self@.attributes =~= old(self)@.attributes.insert(k, v@));
        }
    }

    /// Fixes the span's outcome. The first call that sets `Success` or `Error` on an
    /// open span wins; a message is kept only with `Error`. Later calls, calls
    /// with `Unset`, and calls on a closed span have no effect.
    pub fn set_status(&mut self, status: SpanStatus, message: Option<String>)
        requires
            old(self).wf(),
        ensures
            final(self).wf(),
            (old(self)@.closed() || old(self)@.status != SpanStatus::Unset || status
                == SpanStatus::Unset) ==> final(self)@ == old(self)@,
            !(old(self)@.closed() || old(self)@.status != SpanStatus::Unset || status
                == SpanStatus::Unset) ==> final(self)@ == (SpanView {
                status,
                status_message: if status == SpanStatus::Error {
                    match message {
                        Some(m) => Some(m@),
                        None => None,
                    }
                } else {
                    None
                },
                ..old(self)@
            }),
    {
        if self.end_time.is_none() && self.status == SpanStatus::Unset && status
            != SpanStatus::Unset {
            self.status = status;
            if status == SpanStatus::Error {
                self.status_message = message;
            } else {
                self.status_message = None;
            }
        }
    }

    /// Stamps the end time (never before the start) and freezes the span;
    /// no effect on a span that is already closed.
    pub fn close(&mut self, now: u64)
        requires
            old(self).wf(),
        ensures
            final(self).wf(),
            final(self)@.closed(),
            old(self)@.closed() ==> final(self)@ == old(self)@,
            !old(self)@.closed() ==> final(self)@ == (SpanView {
                end_time: Some(if now < old(self)@.start_time {
                    old(self)@.start_time
                } else {
                    now
                }),
                ..old(self)@
            }),
    {
        if self.end_time.is_none() {
            if now < self.start_time {
                self.end_time = Some(self.start_time);
            } else {
                self.end_time = Some(now);
            }
        }
    }
}

/// `n` as a signed attribute, saturated at the largest `i64`.
pub open spec fn count_value(n: u64) -> AttrView {
    AttrView::Int(if n > i64::MAX as u64 { i64::MAX } else { n as i64 })
}

impl AttrValue {
    /// A count as an attribute value.
    pub fn count(n: u64) -> (r: AttrValue)
        ensures
            r@ == count_value(n),
    {
        if n > i64::MAX as u64 {
            AttrValue::Int(i64::MAX)
        } else {
            AttrValue::Int(n as i64)
        }
    }

    /// A copy of this value.
    pub fn clone_value(&self) -> (r: AttrValue)
        ensures
            r@ == self@,
    {
        match self {
            AttrValue::Str(s) => AttrValue::Str(s.clone()),
            AttrValue::Int(i) => AttrValue::Int(*i),
            AttrValue::Bool(b) => AttrValue::Bool(*b),
        }
    }
}

} // verus!

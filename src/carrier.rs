//! The wire form of a trace context: a string-keyed carrier holding a
//! `version-traceid-spanid-flags` value under the `traceparent` key, written
//! and read by OpenTelemetry's W3C trace-context propagator.

use std::collections::HashMap;

use opentelemetry::propagation::TextMapPropagator;
use opentelemetry::trace::{SpanContext, SpanId, TraceContextExt, TraceFlags, TraceId, TraceState};
use opentelemetry::Context;
use opentelemetry_sdk::propagation::TraceContextPropagator;
use vstd::prelude::*;
use crate::context::TraceContext;
use crate::keyed::{entries_map, keys_unique, lookup, put_entry, Entry};

verus! {

/// The key under which a context travels.
pub open spec fn propagation_key() -> Seq<char> {
    "traceparent"@
}

/// The key of the vendor-specific trace state, written beside it.
pub open spec fn state_key() -> Seq<char> {
    "tracestate"@
}

pub open spec fn hex_digits() -> Seq<char> {
    seq!['0', '1', '2', '3', '4', '5', '6', '7', '8', '9', 'a', 'b', 'c', 'd', 'e', 'f']
}

/// `v` written as exactly `w` lower-case hex digits (higher digits dropped).
pub open spec fn hex_field(v: nat, w: nat) -> Seq<char>
    decreases w,
{
    if w == 0 {
        Seq::empty()
    } else {
        hex_field(v / 16, (w - 1) as nat).push(hex_digits()[(v % 16) as int])
    }
}

/// The `traceparent` value of a context: version `00`, 32 digits of trace id,
/// 16 digits of span id, and flags `01` when sampled, `00` otherwise.
pub open spec fn traceparent_of(c: TraceContext) -> Seq<char> {
    seq!['0', '0', '-'] + hex_field(c.trace_id as nat, 32) + seq!['-'] + hex_field(
        c.span_id as nat,
        16,
    ) + seq!['-'] + (if c.sampled {
        seq!['0', '1']
    } else {
        seq!['0', '0']
    })
}

/// The carrier after `inject(c, m)`: the context under the propagation key,
/// and an empty trace state.
pub open spec fn injected(c: TraceContext, m: Map<Seq<char>, Seq<char>>) -> Map<Seq<char>, Seq<char>> {
    m.insert(propagation_key(), traceparent_of(c)).insert(state_key(), Seq::empty())
}

/// What `extract` may return for a carrier: nothing without the propagation
/// key; only a valid context without a parent link; and, from a carrier that
/// `inject` wrote, the injected context without its parent link.
pub open spec fn extract_allows(m: Map<Seq<char>, Seq<char>>, r: Option<TraceContext>) -> bool {
    &&& (!m.contains_key(propagation_key()) ==> r is None)
    &&& (r matches Some(c) ==> c.valid() && c.parent_span_id is None)
    &&& forall|c: TraceContext, m0: Map<Seq<char>, Seq<char>>|
        c.valid() && m == #[trigger] injected(c, m0) ==> r == Some(c.remote())
}

/// Relies on `TraceContextPropagator::inject_context` of opentelemetry_sdk:
/// for a valid span context it writes `traceparent` as
/// `{:02x}-{trace_id:032x}-{span_id:016x}-{flags & SAMPLED:02x}` with version
/// 0, and `tracestate` as the header of the (empty) trace state, into a
/// `HashMap` whose keys are distinct.
#[verifier::external_body]
fn propagator_inject(c: &TraceContext) -> (r: Vec<(String, String)>)
    requires
        c.valid(),
    ensures
        r@.len() == 2,
        r@[0].0@ != r@[1].0@,
        forall|i: int|
            0 <= i < 2 ==> (r@[i].0@ == propagation_key() && r@[i].1@ == traceparent_of(*c)) || (
            r@[i].0@ == state_key() && r@[i].1@ == Seq::<char>::empty()),
{
    let flags = TraceFlags::new(c.sampled as u8);
    let sc = SpanContext::new(TraceId::from(c.trace_id), SpanId::from(c.span_id), flags, false, TraceState::default());
    let mut m: HashMap<String, String> = HashMap::new();
    TraceContextPropagator::new().inject_context(&Context::new().with_remote_span_context(sc), &mut m);
    m.into_iter().collect()
}

/// Relies on `TraceContextPropagator::extract_with_context` of
/// opentelemetry_sdk, given `value` as the `traceparent` entry: it yields a
/// span context only when that is valid (non-zero ids), with no parent, and
/// it reads back every value that `propagator_inject` writes.
#[verifier::external_body]
fn propagator_extract(value: &str) -> (r: Option<TraceContext>)
    ensures
        r matches Some(c) ==> c.valid() && c.parent_span_id is None,
        forall|c: TraceContext| c.valid() && value@ == traceparent_of(c) ==> r == Some(c.remote()),
{
    let mut m: HashMap<String, String> = HashMap::new();
    m.insert("traceparent".to_string(), value.to_string());
    let cx = TraceContextPropagator::new().extract_with_context(&Context::new(), &m);
    let sc = cx.span().span_context().clone();
    if !sc.is_valid() {
        return None;
    }
    let (t, s) = (u128::from_be_bytes(sc.trace_id().to_bytes()), u64::from_be_bytes(sc.span_id().to_bytes()));
    Some(TraceContext { trace_id: t, span_id: s, parent_span_id: None, sampled: sc.is_sampled() })
}

/// Request metadata that carries one trace context across a process boundary.
pub struct Carrier {
    entries: Vec<Entry<String>>,
}

impl View for Carrier {
    type V = Map<Seq<char>, Seq<char>>;

    closed spec fn view(&self) -> Map<Seq<char>, Seq<char>> {
        entries_map(self.entries@).map_values(|v: String| v@)
    }
}

impl Carrier {
    /// Keys are unique.
    pub closed spec fn wf(&self) -> bool {
        keys_unique(self.entries@)
    }

    /// A carrier with no entries.
    pub fn new() -> (r: Carrier)
        ensures
            r.wf(),
            r@ == Map::<Seq<char>, Seq<char>>::empty(),
    {
        let r = Carrier { entries: Vec::new() };
        assert(r@ =~= Map::<Seq<char>, Seq<char>>::empty());
        r
    }

    /// Stores `value` under `key`, overwriting an earlier value.
    pub fn set(&mut self, key: String, value: String)
        requires
            old(self).wf(),
        ensures
            final(self).wf(),
            final(self)@ == old(self)@.insert(key@, value@),
    {
        let ghost k = key@;
        let ghost v = value@;
        put_entry(&mut self.entries, key, value);
        assert(self@ =~= old(self)@.insert(k, v));
    }

    /// The value stored under `key`.
    pub fn get(&self, key: &str) -> (r: Option<String>)
        requires
            self.wf(),
        ensures
            match r {
                Some(v) => self@.contains_key(key@) && v@ == self@[key@],
                None => !self@.contains_key(key@),
            },
    {
        match lookup(&self.entries, key) {
            Some(v) => Some(v.clone()),
            None => None,
        }
    }

    /// The keys, in order of first insertion.
    pub closed spec fn key_seq(&self) -> Seq<Seq<char>> {
        self.entries@.map_values(|e: Entry<String>| e.key@)
    }

    /// The key sequence lists each key of the carrier exactly once.
    pub proof fn lemma_key_seq(&self)
        requires
            self.wf(),
        ensures
            self.key_seq().len() == self@.dom().len(),
            forall|i: int, j: int|
                0 <= i < j < self.key_seq().len() ==> self.key_seq()[i] != self.key_seq()[j],
            forall|k: Seq<char>| self@.contains_key(k) <==> self.key_seq().contains(k),
    {
        lemma_carrier_len(self.entries@);
        assert forall|k: Seq<char>| self@.contains_key(k) <==> self.key_seq().contains(k) by {
            if self@.contains_key(k) {
                crate::keyed::lemma_entries_map_has(self.entries@, k);
                let i = choose|i: int| 0 <= i < self.entries@.len() && #[trigger] self.entries@[i].key@ == k;
                assert(self.key_seq()[i] == k);
            }
            if self.key_seq().contains(k) {
                let i = choose|i: int| 0 <= i < self.key_seq().len() && self.key_seq()[i] == k;
                crate::keyed::lemma_entries_map_at(self.entries@, i);
            }
        }
    }

    /// Number of entries.
    pub fn len(&self) -> (r: usize)
        requires
            self.wf(),
        ensures
            r == self@.dom().len(),
            r == self.key_seq().len(),
    {
        proof {
            lemma_carrier_len(self.entries@);
        }
        self.entries.len()
    }

    /// The key and value of the `i`-th entry, in order of first insertion.
    pub fn entry(&self, i: usize) -> (r: (String, String))
        requires
            self.wf(),
            i < self@.dom().len(),
        ensures
            r.0@ == self.key_seq()[i as int],
            self@.contains_key(r.0@),
            self@[r.0@] == r.1@,
    {
        proof {
            lemma_carrier_len(self.entries@);
            crate::keyed::lemma_entries_map_at(self.entries@, i as int);
        }
        (self.entries[i].key.clone(), self.entries[i].value.clone())
    }
}

proof fn lemma_carrier_len(s: Seq<Entry<String>>)
    requires
        keys_unique(s),
    ensures
        entries_map(s).map_values(|v: String| v@).dom().len() == s.len(),
{
    assert(entries_map(s).map_values(|v: String| v@).dom() =~= entries_map(s).dom());
    crate::keyed::lemma_entries_map_len(s);
}

/// Writes `c` into `carrier`: its `traceparent` value under the propagation
/// key and an empty trace state, replacing earlier values under those keys.
pub fn inject(c: &TraceContext, carrier: &mut Carrier)
    requires
        old(carrier).wf(),
        c.valid(),
    ensures
        final(carrier).wf(),
        final(carrier)@ == injected(*c, old(carrier)@),
{
    let mut pairs = propagator_inject(c);
    let ghost p = pairs@;
    let (k1, v1) = pairs.pop().unwrap();
    let (k0, v0) = pairs.pop().unwrap();
    carrier.set(k0, v0);
    carrier.set(k1, v1);
    proof {
        reveal_strlit("traceparent");
        reveal_strlit("tracestate");
        assert(propagation_key() != state_key()) by {
            assert(propagation_key()[5] != state_key()[5]);
        }
        assert(carrier@ =~= injected(*c, old(carrier)@));
    }
}

/// Recovers a context from `carrier`: `None` when the propagation key is
/// missing or its value is not a valid `traceparent`.
pub fn extract(carrier: &Carrier) -> (r: Option<TraceContext>)
    requires
        carrier.wf(),
    ensures
        extract_allows(carrier@, r),
{
    let key = "traceparent";
    match carrier.get(key) {
        Some(v) => {
            let r = propagator_extract(v.as_str());
            proof {
                assert forall|c: TraceContext, m0: Map<Seq<char>, Seq<char>>|
                    c.valid() && carrier@ == #[trigger] injected(c, m0) implies r == Some(c.remote()) by {
                    reveal_strlit("traceparent");
                    reveal_strlit("tracestate");
                    assert(propagation_key()[5] != state_key()[5]);
                    assert(injected(c, m0)[propagation_key()] == traceparent_of(c));
                }
            }
            r
        },
        None => {
            proof {
                assert forall|c: TraceContext, m0: Map<Seq<char>, Seq<char>>|
                    c.valid() && carrier@ == #[trigger] injected(c, m0) implies false by {
                    assert(injected(c, m0).contains_key(propagation_key()));
                }
            }
            None
        },
    }
}

/// Injecting a valid context into an empty carrier and extracting it again
/// gives the context back, less its parent link: the same context when it
/// has none.
pub proof fn lemma_context_round_trip(c: TraceContext, r: Option<TraceContext>)
    requires
        c.valid(),
        extract_allows(injected(c, Map::empty()), r),
    ensures
        r == Some(c.remote()),
        c.parent_span_id is None ==> r == Some(c),
{
    assert(injected(c, Map::empty()) == injected(c, Map::<Seq<char>, Seq<char>>::empty()));
}

/// A carrier without the propagation key yields no parent.
pub proof fn lemma_extract_degrades(m: Map<Seq<char>, Seq<char>>, r: Option<TraceContext>)
    requires
        !m.contains_key(propagation_key()),
        extract_allows(m, r),
    ensures
        r is None,
{
}

} // verus!

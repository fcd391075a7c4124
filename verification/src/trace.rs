//! Computable pieces of the tracing support: lower-case hex encoding, the
//! `traceparent` header, and the telemetry sink kind.
//!
//! The spans, subscribers and exporters themselves live at the program's
//! edge; what is decided and formatted from plain values is here.

use vstd::prelude::*;

verus! {

/// Where telemetry is shipped: straight to an agent, or to a collector.
#[derive(Clone, Copy, Debug, PartialEq, Eq, Structural)]
pub enum JaegerSinkKind {
    Agent,
    Collector,
}

/// The lower-case hex digit for one nibble.
pub open spec fn hex_digit(n: u8) -> u8 {
    if n < 10 {
        (0x30 + n) as u8
    } else {
        (0x57 + n) as u8
    }
}

/// The lower-case hex encoding of a byte sequence: two digits per byte,
/// high nibble first.
pub open spec fn hex_of(s: Seq<u8>) -> Seq<u8> {
    Seq::new(
        2 * s.len(),
        |k: int|
            if k % 2 == 0 {
                hex_digit(s[k / 2] >> 4)
            } else {
                hex_digit(s[k / 2] & 0x0f)
            },
    )
}

/// Encodes bytes as lower-case hex, two digits per byte, high nibble
/// first.
pub fn hex_lower(bytes: &[u8]) -> (r: Vec<u8>)
    ensures
        r@ == hex_of(bytes@),
{
    let n = bytes.len();
    let mut r: Vec<u8> = Vec::new();
    for i in 0..n
        invariant
            n == bytes@.len(),
            r@.len() == 2 * i,
            forall|k: int| 0 <= k < r@.len() ==> #[trigger] r@[k] == hex_of(bytes@)[k],
    {
        let b = bytes[i];
        let hi = b >> 4;
        let lo = b & 0x0f;
        proof {
            assert(b >> 4 < 16 && b & 0x0f < 16) by (bit_vector);
        }
        r.push(if hi < 10 { 0x30 + hi } else { 0x57 + hi });
        r.push(if lo < 10 { 0x30 + lo } else { 0x57 + lo });
    }
    proof {
        assert(r@ =~= hex_of(bytes@));
    }
    r
}

/// Every byte is zero.
pub open spec fn all_zero(s: Seq<u8>) -> bool {
    forall|i: int| 0 <= i < s.len() ==> s[i] == 0
}

/// Whether every byte of the slice is zero.
fn is_all_zero(bytes: &[u8]) -> (r: bool)
    ensures
        r == all_zero(bytes@),
{
    let n = bytes.len();
    for i in 0..n
        invariant
            n == bytes@.len(),
            forall|m: int| 0 <= m < i ==> bytes@[m] == 0,
    {
        if bytes[i] != 0 {
            return false;
        }
    }
    true
}

/// The `traceparent` header for a span context: version `00`, then the
/// trace id, span id and flags in lower-case hex, dash-separated.
pub open spec fn spec_traceparent(tid: Seq<u8>, sid: Seq<u8>, flags: u8) -> Seq<u8> {
    seq![0x30u8, 0x30u8, 0x2du8] + hex_of(tid) + seq![0x2du8] + hex_of(sid) + seq![0x2du8]
        + hex_of(seq![flags])
}

/// Formats the `traceparent` header for the current span context, as
/// header bytes. A context is valid only when neither its trace id nor
/// its span id is all zeros; an invalid context yields nothing.
pub fn traceparent(trace_id: &[u8], span_id: &[u8], flags: u8) -> (r: Option<Vec<u8>>)
    requires
        trace_id@.len() == 16,
        span_id@.len() == 8,
    ensures
        r is Some <==> !(all_zero(trace_id@) || all_zero(span_id@)),
        r matches Some(v) ==> v@ == spec_traceparent(trace_id@, span_id@, flags),
{
    if is_all_zero(trace_id) || is_all_zero(span_id) {
        return None;
    }
    let mut v: Vec<u8> = Vec::new();
    v.push(0x30);
    v.push(0x30);
    v.push(0x2d);
    let mut tid_hex = hex_lower(trace_id);
    v.append(&mut tid_hex);
    v.push(0x2d);
    let mut sid_hex = hex_lower(span_id);
    v.append(&mut sid_hex);
    v.push(0x2d);
    let flag_byte: [u8; 1] = [flags];
    let mut flags_hex = hex_lower(flag_byte.as_slice());
    v.append(&mut flags_hex);
    proof {
        assert(flag_byte@ =~= seq![flags]);
        assert(v@ =~= spec_traceparent(trace_id@, span_id@, flags));
    }
    Some(v)
}

/// The byte spelling of the agent sink.
pub open spec fn agent_name() -> Seq<u8> {
    seq![0x61u8, 0x67u8, 0x65u8, 0x6eu8, 0x74u8]
}

/// The byte spelling of the collector sink.
pub open spec fn collector_name() -> Seq<u8> {
    seq![0x63u8, 0x6fu8, 0x6cu8, 0x6cu8, 0x65u8, 0x63u8, 0x74u8, 0x6fu8, 0x72u8]
}

/// Whether two byte slices hold the same bytes.
fn bytes_eq(a: &[u8], b: &[u8]) -> (r: bool)
    ensures
        r == (a@ == b@),
{
    let n = a.len();
    if n != b.len() {
        proof {
            assert(a@ != b@);
        }
        return false;
    }
    for i in 0..n
        invariant
            n == a@.len() && n == b@.len(),
            forall|m: int| 0 <= m < i ==> a@[m] == b@[m],
    {
        if a[i] != b[i] {
            proof {
                assert(a@[i as int] != b@[i as int]);
            }
            return false;
        }
    }
    proof {
        assert(a@ =~= b@);
    }
    true
}

impl JaegerSinkKind {
    /// Parses the sink kind from its configured spelling: `agent` or
    /// `collector`, as bytes. Anything else is unrecognized and yields
    /// nothing; the caller reports the rejected text.
    pub fn parse(name: &[u8]) -> (r: Option<JaegerSinkKind>)
        ensures
            r == Some(JaegerSinkKind::Agent) <==> name@ == agent_name(),
            r == Some(JaegerSinkKind::Collector) <==> name@ == collector_name(),
            r is None <==> name@ != agent_name() && name@ != collector_name(),
    {
        let agent: [u8; 5] = [0x61, 0x67, 0x65, 0x6e, 0x74];
        let collector: [u8; 9] = [0x63, 0x6f, 0x6c, 0x6c, 0x65, 0x63, 0x74, 0x6f, 0x72];
        proof {
            assert(agent@ =~= agent_name());
            assert(collector@ =~= collector_name());
        }
        if bytes_eq(name, agent.as_slice()) {
            Some(JaegerSinkKind::Agent)
        } else if bytes_eq(name, collector.as_slice()) {
            Some(JaegerSinkKind::Collector)
        } else {
            None
        }
    }
}

} // verus!

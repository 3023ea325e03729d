//! Trace-ID extraction: W3C `traceparent` parsing and the choice among the
//! sources of a request's trace ID.

use vstd::prelude::*;

use crate::text::{chars_of, push_char, string_from_range};

verus! {

/// The pieces of `s` between occurrences of `sep` (n separators give n + 1 pieces).
pub open spec fn split_on(s: Seq<char>, sep: char) -> Seq<Seq<char>>
    decreases s.len(),
{
    if s.len() == 0 {
        seq![seq![]]
    } else {
        let p = split_on(s.drop_last(), sep);
        if s.last() == sep {
            p.push(seq![])
        } else {
            p.update(p.len() - 1, p.last().push(s.last()))
        }
    }
}

pub proof fn lemma_split_on_nonempty(s: Seq<char>, sep: char)
    ensures
        split_on(s, sep).len() >= 1,
    decreases s.len(),
{
    if s.len() > 0 {
        lemma_split_on_nonempty(s.drop_last(), sep);
    }
}

/// A lower-case hexadecimal digit.
pub open spec fn is_lower_hex(c: char) -> bool {
    ('0' <= c && c <= '9') || ('a' <= c && c <= 'f')
}

/// The trace ID of a W3C `traceparent` value `00-<trace_id>-<span_id>-<flags>`:
/// version `00`, at least four dash-separated parts, and a trace ID of 32
/// lower-case hexadecimal digits that are not all zero.
pub open spec fn traceparent_trace_id(tp: Seq<char>) -> Option<Seq<char>> {
    let parts = split_on(tp, '-');
    if parts.len() < 4 || parts[0] != "00"@ {
        None
    } else {
        let tid = parts[1];
        if tid.len() != 32 || !(forall|i: int| 0 <= i < tid.len() ==> is_lower_hex(#[trigger] tid[i])) || (forall|
            i: int,
        |
            0 <= i < tid.len() ==> #[trigger] tid[i] == '0') {
            None
        } else {
            Some(tid)
        }
    }
}

/// The pieces of `v` between dashes, each as the range `(start, end)` of its characters.
fn dash_ranges(v: &Vec<char>) -> (r: Vec<(usize, usize)>)
    ensures
        r@.len() == split_on(v@, '-').len(),
        forall|k: int|
            0 <= k < r@.len() ==> {
                let (a, b) = #[trigger] r@[k];
                &&& a <= b <= v@.len()
                &&& v@.subrange(a as int, b as int) == split_on(v@, '-')[k]
            },
{
    let mut r: Vec<(usize, usize)> = Vec::new();
    r.push((0, 0));
    let mut i: usize = 0;
    assert(v@.take(0) =~= Seq::<char>::empty());
    while i < v.len()
        invariant
            i <= v@.len(),
            r@.len() == split_on(v@.take(i as int), '-').len(),
            r@.len() >= 1,
            r@.last().1 == i,
            forall|k: int|
                0 <= k < r@.len() ==> {
                    let (a, b) = #[trigger] r@[k];
                    &&& a <= b <= i
                    &&& v@.subrange(a as int, b as int) == split_on(v@.take(i as int), '-')[k]
                },
        decreases v.len() - i,
    {
        let ghost s = v@.take(i + 1);
        assert(s.drop_last() =~= v@.take(i as int));
        assert(s.last() == v@[i as int]);
        let ghost p = split_on(v@.take(i as int), '-');
        if v[i] == '-' {
            let ghost before = r@;
            r.push((i + 1, i + 1));
            assert forall|k: int| 0 <= k < r@.len() implies {
                let (a, b) = #[trigger] r@[k];
                &&& a <= b <= i + 1
                &&& v@.subrange(a as int, b as int) == split_on(s, '-')[k]
            } by {
                if k < r@.len() - 1 {
                    assert(r@[k] == before[k]);
                }
            }
        } else {
            let last = r.len() - 1;
            let (a, _) = r[last];
            let ghost before = r@;
            r.set(last, (a, i + 1));
            assert(v@.subrange(a as int, i + 1) == v@.subrange(a as int, i as int).push(v@[i as int]));
            assert forall|k: int| 0 <= k < r@.len() implies {
                let (a2, b2) = #[trigger] r@[k];
                &&& a2 <= b2 <= i + 1
                &&& v@.subrange(a2 as int, b2 as int) == split_on(s, '-')[k]
            } by {
                if k < last {
                    assert(r@[k] == before[k]);
                }
            }
        }
        i += 1;
    }
    assert(v@.take(v@.len() as int) =~= v@);
    r
}

/// Parses the trace-id portion of a W3C `traceparent` header.
pub fn parse_traceparent_trace_id(traceparent: &str) -> (r: Option<String>)
    ensures
        match r {
            Some(s) => traceparent_trace_id(traceparent@) == Some(s@),
            None => traceparent_trace_id(traceparent@) is None,
        },
{
    let v = chars_of(traceparent);
    let parts = dash_ranges(&v);
    if parts.len() < 4 {
        return None;
    }
    let (a0, b0) = parts[0];
    assert(v@.subrange(a0 as int, b0 as int) == split_on(v@, '-')[0]);
    if !(b0 - a0 == 2 && v[a0] == '0' && v[a0 + 1] == '0') {
        proof {
            if split_on(v@, '-')[0] == "00"@ {
                reveal_strlit("00");
                assert(b0 - a0 == 2);
                assert(v@.subrange(a0 as int, b0 as int)[0] == v@[a0 as int]);
                assert(v@.subrange(a0 as int, b0 as int)[1] == v@[a0 + 1]);
            }
        }
        return None;
    }
    proof {
        reveal_strlit("00");
        assert(v@.subrange(a0 as int, b0 as int) =~= "00"@);
    }
    let (a, b) = parts[1];
    let ghost tid = split_on(v@, '-')[1];
    assert(v@.subrange(a as int, b as int) == tid);
    if b - a != 32 {
        return None;
    }
    let mut i = a;
    let mut all_zero = true;
    while i < b
        invariant
            a <= i <= b <= v@.len(),
            b - a == 32,
            v@ == traceparent@,
            tid == v@.subrange(a as int, b as int),
            tid == split_on(v@, '-')[1],
            split_on(v@, '-').len() >= 4,
            split_on(v@, '-')[0] == "00"@,
            forall|k: int| 0 <= k < i - a ==> is_lower_hex(#[trigger] tid[k]),
            all_zero == (forall|k: int| 0 <= k < i - a ==> #[trigger] tid[k] == '0'),
        decreases b - i,
    {
        let c = v[i];
        assert(tid[i - a] == c);
        if !(('0' <= c && c <= '9') || ('a' <= c && c <= 'f')) {
            return None;
        }
        if c != '0' {
            all_zero = false;
        }
        i += 1;
    }
    if all_zero {
        return None;
    }
    Some(string_from_range(&v, a, b))
}

/// The W3C trace ID of the active tracing span. Without an exporter of spans
/// configured there is none.
pub fn current_trace_id() -> (r: Option<String>)
    ensures
        r is None,
{
    None
}

/// The trace ID of a request, from its sources in order of preference: the
/// active span, a valid `traceparent` header, then `x-request-id` or, when
/// that header is absent, `x-trace-id`. For each header, `None` means absent
/// and `Some(None)` means present but not readable as text.
pub open spec fn request_trace_id(
    span_id: Option<Seq<char>>,
    traceparent: Option<Option<Seq<char>>>,
    x_request_id: Option<Option<Seq<char>>>,
    x_trace_id: Option<Option<Seq<char>>>,
) -> Option<Seq<char>> {
    if span_id is Some {
        span_id
    } else if traceparent matches Some(Some(tp)) && traceparent_trace_id(tp) is Some {
        traceparent_trace_id(traceparent->0->0)
    } else {
        match x_request_id {
            Some(v) => v,
            None => match x_trace_id {
                Some(v) => v,
                None => None,
            },
        }
    }
}

pub open spec fn opt_text(o: Option<String>) -> Option<Seq<char>> {
    match o {
        Some(s) => Some(s@),
        None => None,
    }
}

pub open spec fn opt_opt_text(o: Option<Option<String>>) -> Option<Option<Seq<char>>> {
    match o {
        Some(i) => Some(opt_text(i)),
        None => None,
    }
}

/// Chooses the trace ID of a request from its sources (see `request_trace_id`).
pub fn select_request_trace_id(
    span_id: Option<String>,
    traceparent: Option<Option<String>>,
    x_request_id: Option<Option<String>>,
    x_trace_id: Option<Option<String>>,
) -> (r: Option<String>)
    ensures
        opt_text(r) == request_trace_id(
            opt_text(span_id),
            opt_opt_text(traceparent),
            opt_opt_text(x_request_id),
            opt_opt_text(x_trace_id),
        ),
{
    if let Some(id) = span_id {
        return Some(id);
    }
    if let Some(Some(tp)) = &traceparent {
        if let Some(id) = parse_traceparent_trace_id(tp.as_str()) {
            return Some(id);
        }
    }
    match x_request_id {
        Some(v) => v,
        None => match x_trace_id {
            Some(v) => v,
            None => None,
        },
    }
}

/// A byte that a header value may hold and still read as text: visible
/// ASCII or a tab.
pub open spec fn is_visible_header_byte(b: u8) -> bool {
    (32 <= b && b < 127) || b == 9
}

/// The text of a header value: its bytes as characters when every byte is
/// visible ASCII or a tab, and none otherwise.
pub open spec fn header_value_text_spec(bytes: Seq<u8>) -> Option<Seq<char>> {
    if forall|i: int| 0 <= i < bytes.len() ==> is_visible_header_byte(#[trigger] bytes[i]) {
        Some(bytes.map_values(|b: u8| b as char))
    } else {
        None
    }
}

/// The text of a header value, when it reads as text (see `header_value_text_spec`).
pub fn header_value_text(bytes: &[u8]) -> (r: Option<String>)
    ensures
        opt_text(r) == header_value_text_spec(bytes@),
{
    let mut s = String::new();
    let mut i: usize = 0;
    while i < bytes.len()
        invariant
            i <= bytes@.len(),
            s@ == bytes@.take(i as int).map_values(|b: u8| b as char),
            forall|k: int| 0 <= k < i ==> is_visible_header_byte(#[trigger] bytes@[k]),
        decreases bytes.len() - i,
    {
        let b = bytes[i];
        if !((32 <= b && b < 127) || b == 9) {
            return None;
        }
        let ghost prev = s@;
        push_char(&mut s, b as char);
        assert(s@ =~= bytes@.take(i + 1).map_values(|b: u8| b as char)) by {
            assert(bytes@.take(i + 1) =~= bytes@.take(i as int).push(b));
        }
        i += 1;
    }
    assert(bytes@.take(bytes@.len() as int) =~= bytes@);
    Some(s)
}

/// The view of an optional header value.
pub open spec fn opt_bytes(h: Option<&[u8]>) -> Option<Seq<u8>> {
    match h {
        Some(b) => Some(b@),
        None => None,
    }
}

/// What a request's header says: `None` when it is absent, `Some(None)`
/// when its value does not read as text.
pub open spec fn header_text_of(h: Option<Seq<u8>>) -> Option<Option<Seq<char>>> {
    match h {
        Some(b) => Some(header_value_text_spec(b)),
        None => None,
    }
}

fn header_text(h: Option<&[u8]>) -> (r: Option<Option<String>>)
    ensures
        opt_opt_text(r) == header_text_of(opt_bytes(h)),
{
    match h {
        Some(b) => Some(header_value_text(b)),
        None => None,
    }
}

/// Best-effort trace ID of a request: the trace ID of the active span first,
/// then a valid `traceparent` header, then `x-request-id` or, when that
/// header is absent, `x-trace-id`; each header given by the bytes of its
/// value, `None` when absent.
pub fn trace_id_from_request(
    span_trace_id: Option<String>,
    traceparent: Option<&[u8]>,
    x_request_id: Option<&[u8]>,
    x_trace_id: Option<&[u8]>,
) -> (r: Option<String>)
    ensures
        opt_text(r) == request_trace_id(
            opt_text(span_trace_id),
            header_text_of(opt_bytes(traceparent)),
            header_text_of(opt_bytes(x_request_id)),
            header_text_of(opt_bytes(x_trace_id)),
        ),
{
    select_request_trace_id(span_trace_id, header_text(traceparent), header_text(x_request_id), header_text(x_trace_id))
}

/// The sources of a request's trace ID, in order of precedence: a span's
/// trace ID wins over every header; a valid `traceparent` wins over the
/// request-ID headers, and what it gives is a 32-digit lower-case hex trace
/// ID; `x-request-id`, when present, wins over `x-trace-id`, whatever that holds.
pub proof fn lemma_trace_id_precedence(
    span: Option<Seq<char>>,
    tp: Option<Option<Seq<char>>>,
    rid: Option<Option<Seq<char>>>,
    tid: Option<Option<Seq<char>>>,
    other_tid: Option<Option<Seq<char>>>,
)
    ensures
        span is Some ==> request_trace_id(span, tp, rid, tid) == span,
        span is None && (tp matches Some(Some(t)) && traceparent_trace_id(t) is Some) ==> {
            let r = request_trace_id(span, tp, rid, tid);
            &&& r == traceparent_trace_id(tp->0->0)
            &&& r->0.len() == 32
            &&& forall|i: int| 0 <= i < 32 ==> is_lower_hex(#[trigger] r->0[i])
        },
        rid is Some ==> request_trace_id(span, tp, rid, tid) == request_trace_id(span, tp, rid, other_tid),
        span is None && !(tp matches Some(Some(t)) && traceparent_trace_id(t) is Some) && rid is Some
            ==> request_trace_id(span, tp, rid, tid) == rid->0,
{
}

} // verus!

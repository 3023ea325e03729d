//! RFC 9457 problem details as returned by REST handlers, and their
//! enrichment with the request's trace context.

use vstd::prelude::*;

use crate::trace_id::current_trace_id;
use crate::text::{chars_of, owned, string_from_range};

verus! {

/// An RFC 9457 problem response.
#[derive(Debug, Clone)]
pub struct Problem {
    /// HTTP status code.
    pub status: u16,
    /// Short summary of the problem kind.
    pub title: String,
    /// Explanation of this occurrence.
    pub detail: String,
    /// The request path this occurrence concerns (empty when unknown).
    pub instance: String,
    /// Machine-readable error code, if any.
    pub code: Option<String>,
    /// W3C trace ID of the request, if any.
    pub trace_id: Option<String>,
}

/// Mathematical model of a `Problem`.
pub struct ProblemModel {
    pub status: u16,
    pub title: Seq<char>,
    pub detail: Seq<char>,
    pub instance: Seq<char>,
    pub code: Option<Seq<char>>,
    pub trace_id: Option<Seq<char>>,
}

pub open spec fn opt_view(o: Option<String>) -> Option<Seq<char>> {
    match o {
        Some(s) => Some(s@),
        None => None,
    }
}

impl View for Problem {
    type V = ProblemModel;

    open spec fn view(&self) -> ProblemModel {
        ProblemModel {
            status: self.status,
            title: self.title@,
            detail: self.detail@,
            instance: self.instance@,
            code: opt_view(self.code),
            trace_id: opt_view(self.trace_id),
        }
    }
}

impl Problem {
    /// A problem with the given status, title and detail, and nothing else.
    pub fn new(status: u16, title: &str, detail: &str) -> (r: Problem)
        ensures
            r@ == (ProblemModel {
                status,
                title: title@,
                detail: detail@,
                instance: seq![],
                code: None,
                trace_id: None,
            }),
    {
        let instance = String::new();
        Problem { status, title: owned(title), detail: owned(detail), instance, code: None, trace_id: None }
    }

    /// This problem with the given error code.
    pub fn with_code(self, code: String) -> (r: Problem)
        ensures
            r@ == (ProblemModel { code: Some(code@), ..self@ }),
    {
        Problem { code: Some(code), ..self }
    }

    /// This problem with the given trace ID.
    pub fn with_trace_id(self, trace_id: String) -> (r: Problem)
        ensures
            r@ == (ProblemModel { trace_id: Some(trace_id@), ..self@ }),
    {
        Problem { trace_id: Some(trace_id), ..self }
    }

    /// This problem for the given request path.
    pub fn with_instance(self, instance: &str) -> (r: Problem)
        ensures
            r@ == (ProblemModel { instance: instance@, ..self@ }),
    {
        Problem { instance: owned(instance), ..self }
    }

    /// This problem with the trace ID, when there is one.
    pub fn with_optional_trace_id(self, trace_id: Option<String>) -> (r: Problem)
        ensures
            r@ == (ProblemModel {
                trace_id: match trace_id {
                    Some(t) => Some(t@),
                    None => self@.trace_id,
                },
                ..self@
            }),
    {
        match trace_id {
            Some(tid) => self.with_trace_id(tid),
            None => self,
        }
    }
}

/// Enrichment of a problem with the context of the current request.
pub trait WithTraceContext: Sized {
    /// This value with the request path and the trace ID of the active span.
    fn with_trace_context(self, instance: &str) -> Self;
}

impl WithTraceContext for Problem {
    /// The problem for the request path `instance`, with the trace ID of the
    /// active span when there is one.
    fn with_trace_context(self, instance: &str) -> (r: Problem)
        ensures
            r@ == (ProblemModel { instance: instance@, ..self@ }),
    {
        let p = self.with_instance(instance);
        p.with_optional_trace_id(current_trace_id())
    }
}

/// The position of the first `?` of `s` at or after `i`, or its length when there is none.
pub open spec fn query_start(s: Seq<char>, i: int) -> int
    decreases s.len() - i,
{
    if i < 0 || i >= s.len() {
        s.len() as int
    } else if s[i] == '?' {
        i
    } else {
        query_start(s, i + 1)
    }
}

/// The path of a request URI given the text of its path and query (none for
/// a URI in authority form): the text before the first `?`, or `/` when
/// that is empty; empty when there is no path and query.
pub open spec fn uri_path_spec(path_and_query: Option<Seq<char>>) -> Seq<char> {
    match path_and_query {
        None => seq![],
        Some(s) => {
            let p = s.subrange(0, query_start(s, 0));
            if p.len() == 0 {
                "/"@
            } else {
                p
            }
        },
    }
}

/// The view of an optional text.
pub open spec fn opt_str(o: Option<&str>) -> Option<Seq<char>> {
    match o {
        Some(s) => Some(s@),
        None => None,
    }
}

/// The path of a request URI (see `uri_path_spec`).
pub fn uri_path(path_and_query: Option<&str>) -> (r: String)
    ensures
        r@ == uri_path_spec(opt_str(path_and_query)),
{
    match path_and_query {
        None => String::new(),
        Some(pq) => {
            let v = chars_of(pq);
            let mut i: usize = 0;
            while i < v.len() && v[i] != '?'
                invariant
                    i <= v@.len(),
                    v@ == pq@,
                    query_start(v@, i as int) == query_start(v@, 0),
                decreases v.len() - i,
            {
                i += 1;
            }
            if i == 0 {
                proof {
                    reveal_strlit("/");
                }
                owned("/")
            } else {
                string_from_range(&v, 0, i)
            }
        },
    }
}

impl Problem {
    /// The problem for the request whose URI has this path and query, with
    /// the trace ID of the active span when there is one.
    pub fn with_request_uri(self, path_and_query: Option<&str>) -> (r: Problem)
        ensures
            r@ == (ProblemModel { instance: uri_path_spec(opt_str(path_and_query)), ..self@ }),
    {
        let path = uri_path(path_and_query);
        self.with_trace_context(path.as_str())
    }
}

} // verus!

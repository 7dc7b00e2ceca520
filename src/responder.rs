use vstd::prelude::*;
use vstd::string::StringExecFns;
use crate::limiter::{LimitDecision, LimiterSpec};
use crate::text::{decimal, u64_text};

verus! {

pub const STATUS_TOO_MANY_REQUESTS: u16 = 429;

/// How a response body is to be read.
#[derive(Clone, Copy, Debug, PartialEq, Eq, Structural)]
pub enum ContentKind {
    Html,
    PlainText,
}

pub struct Header {
    pub name: String,
    pub value: String,
}

/// A response as the HTTP layer will send it.
pub struct ResponseEnvelope {
    pub status: u16,
    pub content_kind: ContentKind,
    pub headers: Vec<Header>,
    pub body: String,
}

impl ResponseEnvelope {
    pub open spec fn header_pairs(&self) -> Seq<(Seq<char>, Seq<char>)> {
        self.headers@.map_values(|h: Header| (h.name@, h.value@))
    }
}

/// The plain message of a denial: the window in seconds, the action, and how many
/// times it may be done.
pub open spec fn denial_message(window_secs: u64, action: Seq<char>, max_requests: u64) -> Seq<char> {
    "为防滥用，"@ + decimal(window_secs as nat) + "s内仅能"@ + action + decimal(max_requests as nat)
        + "次，请稍后再试"@
}

/// The quota headers of a denial.
pub open spec fn denial_headers(d: LimitDecision) -> Seq<(Seq<char>, Seq<char>)> {
    seq![
        ("x-ratelimit-limit"@, decimal(d.limit as nat)),
        ("x-ratelimit-remaining"@, decimal(d.remaining as nat)),
        ("x-ratelimit-reset"@, decimal(d.retry_after as nat)),
        ("retry-after"@, decimal(d.retry_after as nat)),
    ]
}

/// The plain message of a denial by `spec`.
pub fn denial_text(spec: &LimiterSpec) -> (r: String)
    ensures
        r@ == denial_message(spec.policy.window_secs, spec.action@, spec.policy.max_requests),
        r@.len() > 0,
{
    proof {
        reveal_strlit("为防滥用，");
        reveal_strlit("s内仅能");
        reveal_strlit("次，请稍后再试");
    }
    let window = u64_text(spec.policy.window_secs);
    let max = u64_text(spec.policy.max_requests);
    String::from_str("为防滥用，")
        .concat(window.as_str())
        .concat("s内仅能")
        .concat(spec.action.as_str())
        .concat(max.as_str())
        .concat("次，请稍后再试")
}

fn header(name: &str, value: u64) -> (r: Header)
    ensures
        r.name@ == name@,
        r.value@ == decimal(value as nat),
{
    Header { name: String::from_str(name), value: u64_text(value) }
}

/// The response to a request that `spec` denied with `d`. `rendered` is the
/// page that the template renderer made of the denial, or `None` where it failed;
/// then the body is the plain message. Either way the status is 429.
pub fn render_denial(spec: &LimiterSpec, d: &LimitDecision, rendered: Option<String>) -> (r: ResponseEnvelope)
    ensures
        r.status == STATUS_TOO_MANY_REQUESTS,
        r.header_pairs() == denial_headers(*d),
        match rendered {
            Some(page) => r.content_kind == ContentKind::Html && r.body@ == page@,
            None => {
                &&& r.content_kind == ContentKind::PlainText
                &&& r.body@ == denial_message(spec.policy.window_secs, spec.action@, spec.policy.max_requests)
                &&& r.body@.len() > 0
            },
        },
{
    let mut headers: Vec<Header> = Vec::new();
    headers.push(header("x-ratelimit-limit", d.limit));
    headers.push(header("x-ratelimit-remaining", d.remaining));
    headers.push(header("x-ratelimit-reset", d.retry_after));
    headers.push(header("retry-after", d.retry_after));
    let (content_kind, body) = match rendered {
        Some(page) => (ContentKind::Html, page),
        None => (ContentKind::PlainText, denial_text(spec)),
    };
    let r = ResponseEnvelope { status: STATUS_TOO_MANY_REQUESTS, content_kind, headers, body };
    assert(r.header_pairs() =~= denial_headers(*d));
    r
}

/// The response for an error page of `status`. `rendered` is the page that the
/// template renderer made, or `None` where it failed; then the body is the
/// plain `error` text.
pub fn error_response(status: u16, error: &String, rendered: Option<String>) -> (r: ResponseEnvelope)
    ensures
        r.status == status,
        r.headers@.len() == 0,
        match rendered {
            Some(page) => r.content_kind == ContentKind::Html && r.body@ == page@,
            None => r.content_kind == ContentKind::PlainText && r.body@ == error@,
        },
{
    let (content_kind, body) = match rendered {
        Some(page) => (ContentKind::Html, page),
        None => (ContentKind::PlainText, error.clone()),
    };
    ResponseEnvelope { status, content_kind, headers: Vec::new(), body }
}

} // verus!

use vstd::prelude::*;
use vstd::string::StringExecFns;
use crate::limiter::{LimitDecision, LimiterSpec};
use crate::relay::RelayOutcome;
use crate::responder::{
    denial_headers, denial_message, error_response, render_denial, ContentKind, ResponseEnvelope,
    STATUS_TOO_MANY_REQUESTS,
};
use crate::text::{decimal, i64_text, u64_text};

verus! {

/// handlebars' template registry, carried through to `render_template` unopened.
#[verifier::external_type_specification]
#[verifier::external_body]
pub struct ExHandlebars<'reg>(handlebars::Handlebars<'reg>);

/// The error of `Handlebars::render`; the library reads only that there was one.
#[verifier::external_type_specification]
#[verifier::external_body]
pub struct ExRenderError(handlebars::RenderError);

/// The name of the template that a denial page is rendered from.
pub const DENIAL_TEMPLATE: &'static str = "rate-limited";

/// The name of the template that an error page is rendered from.
pub const ERROR_TEMPLATE: &'static str = "error";

/// One string field of the data that a template is rendered with.
pub struct TemplateField {
    pub name: String,
    pub value: String,
}

/// Relies on `Handlebars::render`: renders the registered template `name` with an
/// object of string fields. What comes back depends on the templates registered,
/// so nothing is promised of it; a missing template gives an error.
#[verifier::external_body]
fn render_template(hb: &handlebars::Handlebars, name: &str, data: &Vec<TemplateField>) -> (r: Result<String, handlebars::RenderError>)
{
    let object: std::collections::BTreeMap<&str, &str> =
        data.iter().map(|f| (f.name.as_str(), f.value.as_str())).collect();
    hb.render(name, &object)
}

fn template_field(name: &str, value: String) -> (r: TemplateField)
    ensures
        r.name@ == name@,
        r.value@ == value@,
{
    TemplateField { name: String::from_str(name), value }
}

/// The fields that a denial page is rendered with.
pub open spec fn denial_fields_of(spec: LimiterSpec) -> Seq<(Seq<char>, Seq<char>)> {
    seq![
        ("window_secs"@, decimal(spec.policy.window_secs as nat)),
        ("action"@, spec.action@),
        ("max_requests"@, decimal(spec.policy.max_requests as nat)),
    ]
}

pub open spec fn template_pairs(fs: Seq<TemplateField>) -> Seq<(Seq<char>, Seq<char>)> {
    fs.map_values(|f: TemplateField| (f.name@, f.value@))
}

/// The fields of the page for a denial by `spec`.
pub fn denial_fields(spec: &LimiterSpec) -> (r: Vec<TemplateField>)
    ensures
        template_pairs(r@) == denial_fields_of(*spec),
{
    let mut r: Vec<TemplateField> = Vec::new();
    r.push(template_field("window_secs", u64_text(spec.policy.window_secs)));
    r.push(template_field("action", spec.action.clone()));
    r.push(template_field("max_requests", u64_text(spec.policy.max_requests)));
    assert(template_pairs(r@) =~= denial_fields_of(*spec));
    r
}

/// The response to a request that `spec` denied with `d`: the denial page
/// rendered by `hb`, or, where rendering fails, the plain message. The status is
/// 429 and the quota headers are there whatever the renderer does.
pub fn denial_response(hb: &handlebars::Handlebars, spec: &LimiterSpec, d: &LimitDecision) -> (r: ResponseEnvelope)
    ensures
        r.status == STATUS_TOO_MANY_REQUESTS,
        r.header_pairs() == denial_headers(*d),
        r.content_kind == ContentKind::PlainText ==> {
            &&& r.body@ == denial_message(spec.policy.window_secs, spec.action@, spec.policy.max_requests)
            &&& r.body@.len() > 0
        },
{
    let data = denial_fields(spec);
    let rendered = match render_template(hb, DENIAL_TEMPLATE, &data) {
        Ok(page) => Some(page),
        Err(_) => None,
    };
    render_denial(spec, d, rendered)
}

/// The fields that an error page is rendered with.
pub open spec fn error_fields_of(method: Seq<char>, uri: Seq<char>, error: Seq<char>, status: u16) -> Seq<(Seq<char>, Seq<char>)> {
    seq![
        ("request_method"@, method),
        ("request_uri"@, uri),
        ("error"@, error),
        ("status_code"@, decimal(status as nat)),
        ("error_info"@, Seq::<char>::empty()),
    ]
}

/// The fields of the page for an error of `status` on a `method` request to `uri`.
pub fn error_fields(method: &String, uri: &String, error: &String, status: u16) -> (r: Vec<TemplateField>)
    ensures
        template_pairs(r@) == error_fields_of(method@, uri@, error@, status),
{
    proof {
        reveal_strlit("");
        assert(""@ =~= Seq::<char>::empty());
    }
    let mut r: Vec<TemplateField> = Vec::new();
    r.push(template_field("request_method", method.clone()));
    r.push(template_field("request_uri", uri.clone()));
    r.push(template_field("error", error.clone()));
    r.push(template_field("status_code", u64_text(status as u64)));
    r.push(template_field("error_info", String::from_str("")));
    assert(template_pairs(r@) =~= error_fields_of(method@, uri@, error@, status));
    r
}

/// The error page for `status`, rendered by `hb` where there is a renderer and
/// rendering succeeds, else the plain `error` text. The status is kept either way.
pub fn error_page(hb: Option<&handlebars::Handlebars>, method: &String, uri: &String, status: u16, error: &String) -> (r: ResponseEnvelope)
    ensures
        r.status == status,
        hb is None ==> r.content_kind == ContentKind::PlainText,
        r.content_kind == ContentKind::PlainText ==> r.body@ == error@,
{
    let rendered = match hb {
        Some(hb) => {
            let data = error_fields(method, uri, error, status);
            match render_template(hb, ERROR_TEMPLATE, &data) {
                Ok(page) => Some(page),
                Err(_) => None,
            }
        },
        None => None,
    };
    error_response(status, error, rendered)
}

pub const STATUS_OK: u16 = 200;

pub const STATUS_INTERNAL_SERVER_ERROR: u16 = 500;

pub open spec fn render_failed_message() -> Seq<char> {
    "failed to render page"@
}

pub open spec fn upstream_failure_message(status: u16, detail: Seq<char>) -> Seq<char> {
    "API Request Failed with "@ + decimal(status as nat) + ": "@ + detail
}

/// Whether `r` is a page that rendered, or the plain answer to a render that failed.
pub open spec fn page_or_render_failure(r: ResponseEnvelope) -> bool {
    &&& r.headers@.len() == 0
    &&& {
        ||| r.status == STATUS_OK && r.content_kind == ContentKind::Html
        ||| r.status == STATUS_INTERNAL_SERVER_ERROR && r.content_kind == ContentKind::PlainText
            && r.body@ == render_failed_message()
    }
}

/// The page rendered from template `name` with `data`, sent with status 200; where
/// rendering fails, status 500 and a plain message.
pub fn page_response(hb: &handlebars::Handlebars, name: &str, data: &Vec<TemplateField>) -> (r: ResponseEnvelope)
    ensures
        page_or_render_failure(r),
{
    proof {
        reveal_strlit("failed to render page");
    }
    match render_template(hb, name, data) {
        Ok(page) => ResponseEnvelope { status: STATUS_OK, content_kind: ContentKind::Html, headers: Vec::new(), body: page },
        Err(_) => ResponseEnvelope {
            status: STATUS_INTERNAL_SERVER_ERROR,
            content_kind: ContentKind::PlainText,
            headers: Vec::new(),
            body: String::from_str("failed to render page"),
        },
    }
}

/// The form for opening a topic on `host`.
pub fn new_topic_form_page(hb: &handlebars::Handlebars, host: &String) -> (r: ResponseEnvelope)
    ensures
        page_or_render_failure(r),
{
    let mut data: Vec<TemplateField> = Vec::new();
    data.push(template_field("hostname", host.clone()));
    page_response(hb, "new-topic", &data)
}

/// The form for replying to topic `topic_id`, titled `title`, on `host`.
pub fn reply_form_page(hb: &handlebars::Handlebars, host: &String, topic_id: &String, title: &String) -> (r: ResponseEnvelope)
    ensures
        page_or_render_failure(r),
{
    let mut data: Vec<TemplateField> = Vec::new();
    data.push(template_field("hostname", host.clone()));
    data.push(template_field("topic_id", topic_id.clone()));
    data.push(template_field("title", title.clone()));
    page_response(hb, "reply", &data)
}

/// Whether `r` answers a relayed request whose outcome was `outcome`.
pub open spec fn answers_outcome(r: ResponseEnvelope, outcome: RelayOutcome) -> bool {
    match outcome {
        RelayOutcome::Success { .. } => page_or_render_failure(r),
        RelayOutcome::UpstreamError { status, detail } => {
            &&& r.status == STATUS_INTERNAL_SERVER_ERROR
            &&& r.content_kind == ContentKind::PlainText
            &&& r.body@ == upstream_failure_message(status, detail@)
        },
        RelayOutcome::MalformedUpstreamResponse(detail) => {
            &&& r.status == STATUS_INTERNAL_SERVER_ERROR
            &&& r.content_kind == ContentKind::PlainText ==> r.body@ == detail@
        },
    }
}

fn upstream_failure(status: u16, detail: &String) -> (r: ResponseEnvelope)
    ensures
        r.status == STATUS_INTERNAL_SERVER_ERROR,
        r.content_kind == ContentKind::PlainText,
        r.body@ == upstream_failure_message(status, detail@),
{
    proof {
        reveal_strlit("API Request Failed with ");
        reveal_strlit(": ");
    }
    let body = String::from_str("API Request Failed with ")
        .concat(u64_text(status as u64).as_str())
        .concat(": ")
        .concat(detail.as_str());
    ResponseEnvelope { status: STATUS_INTERNAL_SERVER_ERROR, content_kind: ContentKind::PlainText, headers: Vec::new(), body }
}

fn malformed_answer(hb: &handlebars::Handlebars, host: &String, detail: &String) -> (r: ResponseEnvelope)
    ensures
        r.status == STATUS_INTERNAL_SERVER_ERROR,
        r.content_kind == ContentKind::PlainText ==> r.body@ == detail@,
{
    error_page(Some(hb), &String::from_str("POST"), host, STATUS_INTERNAL_SERVER_ERROR, detail)
}

/// The answer to a reply to topic `topic_id` on `host` whose relay ended in `outcome`.
pub fn reply_response(hb: &handlebars::Handlebars, host: &String, topic_id: &String, outcome: RelayOutcome) -> (r: ResponseEnvelope)
    ensures
        answers_outcome(r, outcome),
{
    match outcome {
        RelayOutcome::Success { id: _, url } => {
            let mut data: Vec<TemplateField> = Vec::new();
            data.push(template_field("hostname", host.clone()));
            data.push(template_field("topic_id", topic_id.clone()));
            data.push(template_field("reply_result_url", url));
            page_response(hb, "reply-succeeded", &data)
        },
        RelayOutcome::UpstreamError { status, detail } => upstream_failure(status, &detail),
        RelayOutcome::MalformedUpstreamResponse(detail) => malformed_answer(hb, host, &detail),
    }
}

/// The answer to opening a topic on `host` whose relay ended in `outcome`.
pub fn new_topic_response(hb: &handlebars::Handlebars, host: &String, outcome: RelayOutcome) -> (r: ResponseEnvelope)
    ensures
        answers_outcome(r, outcome),
{
    match outcome {
        RelayOutcome::Success { id, url } => {
            let mut data: Vec<TemplateField> = Vec::new();
            data.push(template_field("hostname", host.clone()));
            data.push(template_field("topic_id", i64_text(id)));
            data.push(template_field("reply_result_url", url));
            page_response(hb, "new-topic-succeeded", &data)
        },
        RelayOutcome::UpstreamError { status, detail } => upstream_failure(status, &detail),
        RelayOutcome::MalformedUpstreamResponse(detail) => malformed_answer(hb, host, &detail),
    }
}

} // verus!

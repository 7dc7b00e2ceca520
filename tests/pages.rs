use anon_relay::limiter::{KeyRule, LimitDecision, LimiterSpec};
use anon_relay::pages::{
    denial_fields, denial_response, error_fields, error_page, new_topic_form_page, new_topic_response, reply_form_page,
    reply_response, DENIAL_TEMPLATE, ERROR_TEMPLATE,
};
use anon_relay::relay::RelayOutcome;
use anon_relay::policy::WindowPolicy;
use anon_relay::responder::ContentKind;
use handlebars::Handlebars;

fn new_topic_limiter() -> LimiterSpec {
    LimiterSpec {
        scope: 2,
        policy: WindowPolicy { window_secs: 3600, max_requests: 2 },
        key_rule: KeyRule::PeerIpAndPath,
        action: "尝试新建话题".to_string(),
    }
}

fn denied() -> LimitDecision {
    LimitDecision { allowed: false, limit: 2, remaining: 0, reset_at: 3600, retry_after: 3000 }
}

#[test]
fn denial_page_is_rendered_from_its_template() {
    let mut hb = Handlebars::new();
    hb.register_template_string(DENIAL_TEMPLATE, "<p>{{window_secs}}s {{action}} {{max_requests}}</p>").unwrap();
    let r = denial_response(&hb, &new_topic_limiter(), &denied());
    assert_eq!(r.status, 429);
    assert_eq!(r.content_kind, ContentKind::Html);
    assert_eq!(r.body, "<p>3600s 尝试新建话题 2</p>");
    assert_eq!(r.headers.len(), 4);
}

#[test]
fn denial_without_template_is_plain_text() {
    let hb = Handlebars::new();
    let r = denial_response(&hb, &new_topic_limiter(), &denied());
    assert_eq!(r.status, 429);
    assert_eq!(r.content_kind, ContentKind::PlainText);
    assert_eq!(r.body, "为防滥用，3600s内仅能尝试新建话题2次，请稍后再试");
}

#[test]
fn denial_with_failing_template_is_plain_text() {
    let mut hb = Handlebars::new();
    hb.set_strict_mode(true);
    hb.register_template_string(DENIAL_TEMPLATE, "<p>{{no_such_field}}</p>").unwrap();
    let r = denial_response(&hb, &new_topic_limiter(), &denied());
    assert_eq!(r.status, 429);
    assert_eq!(r.content_kind, ContentKind::PlainText);
    assert!(!r.body.is_empty());
}

#[test]
fn denial_fields_name_the_policy() {
    let f: Vec<(String, String)> =
        denial_fields(&new_topic_limiter()).into_iter().map(|f| (f.name, f.value)).collect();
    assert_eq!(
        f,
        vec![
            ("window_secs".to_string(), "3600".to_string()),
            ("action".to_string(), "尝试新建话题".to_string()),
            ("max_requests".to_string(), "2".to_string()),
        ]
    );
}

#[test]
fn error_page_rendered_or_plain() {
    let mut hb = Handlebars::new();
    hb.register_template_string(ERROR_TEMPLATE, "{{status_code}} {{error}} {{request_method}} {{request_uri}}").unwrap();
    let m = "GET".to_string();
    let u = "/missing".to_string();
    let e = "Not Found".to_string();
    let r = error_page(Some(&hb), &m, &u, 404, &e);
    assert_eq!(r.status, 404);
    assert_eq!(r.content_kind, ContentKind::Html);
    assert_eq!(r.body, "404 Not Found GET /missing");
    let plain = error_page(None, &m, &u, 404, &e);
    assert_eq!(plain.content_kind, ContentKind::PlainText);
    assert_eq!(plain.body, "Not Found");
    let empty = Handlebars::new();
    let fallback = error_page(Some(&empty), &m, &u, 404, &e);
    assert_eq!(fallback.status, 404);
    assert_eq!(fallback.content_kind, ContentKind::PlainText);
    assert_eq!(fallback.body, "Not Found");
}

#[test]
fn error_fields_carry_the_request() {
    let f: Vec<(String, String)> =
        error_fields(&"POST".to_string(), &"/x".to_string(), &"boom".to_string(), 500)
            .into_iter()
            .map(|f| (f.name, f.value))
            .collect();
    assert_eq!(
        f,
        vec![
            ("request_method".to_string(), "POST".to_string()),
            ("request_uri".to_string(), "/x".to_string()),
            ("error".to_string(), "boom".to_string()),
            ("status_code".to_string(), "500".to_string()),
            ("error_info".to_string(), "".to_string()),
        ]
    );
}

fn site_templates() -> Handlebars<'static> {
    let mut hb = Handlebars::new();
    hb.register_template_string("new-topic", "new on {{hostname}}").unwrap();
    hb.register_template_string("reply", "reply to {{topic_id}} ({{title}}) on {{hostname}}").unwrap();
    hb.register_template_string("reply-succeeded", "{{topic_id}} at {{reply_result_url}}").unwrap();
    hb.register_template_string("new-topic-succeeded", "{{topic_id}} at {{reply_result_url}}").unwrap();
    hb.register_template_string(ERROR_TEMPLATE, "{{status_code}}: {{error}}").unwrap();
    hb
}

#[test]
fn form_pages_render_or_fail_plainly() {
    let hb = site_templates();
    let host = "xjtu.men".to_string();
    let r = new_topic_form_page(&hb, &host);
    assert_eq!(r.status, 200);
    assert_eq!(r.content_kind, ContentKind::Html);
    assert_eq!(r.body, "new on xjtu.men");
    let r = reply_form_page(&hb, &host, &"42".to_string(), &"hello".to_string());
    assert_eq!(r.status, 200);
    assert_eq!(r.body, "reply to 42 (hello) on xjtu.men");
    let r = new_topic_form_page(&Handlebars::new(), &host);
    assert_eq!(r.status, 500);
    assert_eq!(r.content_kind, ContentKind::PlainText);
    assert_eq!(r.body, "failed to render page");
}

#[test]
fn relay_answers() {
    let hb = site_templates();
    let host = "xjtu.men".to_string();
    let ok = RelayOutcome::Success { id: 5, url: "https://xjtu.men/t/-/42/5".to_string() };
    let r = reply_response(&hb, &host, &"42".to_string(), ok);
    assert_eq!(r.status, 200);
    assert_eq!(r.body, "42 at https://xjtu.men/t/-/42/5");
    let ok = RelayOutcome::Success { id: 77, url: "https://xjtu.men/t/-/77/".to_string() };
    let r = new_topic_response(&hb, &host, ok);
    assert_eq!(r.status, 200);
    assert_eq!(r.body, "77 at https://xjtu.men/t/-/77/");
    let failed = RelayOutcome::UpstreamError { status: 422, detail: "title too short".to_string() };
    let r = new_topic_response(&hb, &host, failed);
    assert_eq!(r.status, 500);
    assert_eq!(r.content_kind, ContentKind::PlainText);
    assert_eq!(r.body, "API Request Failed with 422: title too short");
    let bad = RelayOutcome::MalformedUpstreamResponse("expected value".to_string());
    let r = reply_response(&hb, &host, &"42".to_string(), bad);
    assert_eq!(r.status, 500);
    assert_eq!(r.content_kind, ContentKind::Html);
    assert_eq!(r.body, "500: expected value");
    let bad = RelayOutcome::MalformedUpstreamResponse("expected value".to_string());
    let r = reply_response(&Handlebars::new(), &host, &"42".to_string(), bad);
    assert_eq!(r.status, 500);
    assert_eq!(r.content_kind, ContentKind::PlainText);
    assert_eq!(r.body, "expected value");
}

use anon_relay::limiter::{KeyRule, LimitDecision, LimiterSpec};
use anon_relay::policy::WindowPolicy;
use anon_relay::relay::{
    new_topic_fields, new_topic_outcome, new_topic_url, reply_fields, reply_outcome, reply_url, JsonNumber,
    NewTopicForm, PostToTopicForm, RelayOutcome, UpstreamReply,
};
use anon_relay::responder::{denial_text, error_response, render_denial, ContentKind};

fn reply_limiter() -> LimiterSpec {
    LimiterSpec {
        scope: 3,
        policy: WindowPolicy { window_secs: 1800, max_requests: 10 },
        key_rule: KeyRule::PeerIpAndPath,
        action: "尝试回复".to_string(),
    }
}

fn denied() -> LimitDecision {
    LimitDecision { allowed: false, limit: 10, remaining: 0, reset_at: 1900, retry_after: 1795 }
}

#[test]
fn denial_text_names_window_action_and_limit() {
    assert_eq!(denial_text(&reply_limiter()), "为防滥用，1800s内仅能尝试回复10次，请稍后再试");
}

#[test]
fn denial_falls_back_to_plain_text_when_rendering_fails() {
    let r = render_denial(&reply_limiter(), &denied(), None);
    assert_eq!(r.status, 429);
    assert_eq!(r.content_kind, ContentKind::PlainText);
    assert!(!r.body.is_empty());
    assert_eq!(r.body, "为防滥用，1800s内仅能尝试回复10次，请稍后再试");
}

#[test]
fn denial_uses_rendered_page() {
    let r = render_denial(&reply_limiter(), &denied(), Some("<p>slow down</p>".to_string()));
    assert_eq!(r.status, 429);
    assert_eq!(r.content_kind, ContentKind::Html);
    assert_eq!(r.body, "<p>slow down</p>");
}

#[test]
fn denial_headers_carry_quota() {
    let r = render_denial(&reply_limiter(), &denied(), None);
    let pairs: Vec<(String, String)> = r.headers.iter().map(|h| (h.name.clone(), h.value.clone())).collect();
    assert_eq!(
        pairs,
        vec![
            ("x-ratelimit-limit".to_string(), "10".to_string()),
            ("x-ratelimit-remaining".to_string(), "0".to_string()),
            ("x-ratelimit-reset".to_string(), "1795".to_string()),
            ("retry-after".to_string(), "1795".to_string()),
        ]
    );
}

#[test]
fn error_page_or_plain_fallback() {
    let e = "Not Found".to_string();
    let plain = error_response(404, &e, None);
    assert_eq!(plain.status, 404);
    assert_eq!(plain.content_kind, ContentKind::PlainText);
    assert_eq!(plain.body, "Not Found");
    let page = error_response(404, &e, Some("<h1>404</h1>".to_string()));
    assert_eq!(page.content_kind, ContentKind::Html);
    assert_eq!(page.body, "<h1>404</h1>");
}

#[test]
fn urls_of_posts_and_topics() {
    let host = "xjtu.men".to_string();
    assert_eq!(reply_url(&host, &"42".to_string(), 7), "https://xjtu.men/t/-/42/7");
    assert_eq!(reply_url(&host, &"42".to_string(), -3), "https://xjtu.men/t/-/42/-3");
    assert_eq!(new_topic_url(&host, 1234), "https://xjtu.men/t/-/1234/");
}

#[test]
fn upstream_request_fields() {
    let reply = PostToTopicForm { content: "hello".to_string(), topic_id: "42".to_string() };
    let f: Vec<(String, String)> = reply_fields(&reply).into_iter().map(|f| (f.name, f.value)).collect();
    assert_eq!(
        f,
        vec![
            ("category".to_string(), "".to_string()),
            ("title".to_string(), "".to_string()),
            ("raw".to_string(), "hello".to_string()),
            ("topic_id".to_string(), "42".to_string()),
            ("body".to_string(), "json".to_string()),
        ]
    );
    let topic = NewTopicForm {
        category: "5".to_string(),
        topic_content: "body text".to_string(),
        topic_title: "a title".to_string(),
    };
    let f: Vec<(String, String)> = new_topic_fields(&topic).into_iter().map(|f| (f.name, f.value)).collect();
    assert_eq!(
        f,
        vec![
            ("category".to_string(), "5".to_string()),
            ("title".to_string(), "a title".to_string()),
            ("raw".to_string(), "body text".to_string()),
            ("body".to_string(), "json".to_string()),
        ]
    );
}

#[test]
fn reply_outcomes() {
    let host = "xjtu.men".to_string();
    let topic = "42".to_string();
    match reply_outcome(&host, &topic, UpstreamReply::Json(JsonNumber::Int(3))) {
        RelayOutcome::Success { id, url } => {
            assert_eq!(id, 3);
            assert_eq!(url, "https://xjtu.men/t/-/42/3");
        },
        _ => panic!("expected success"),
    }
    match reply_outcome(&host, &topic, UpstreamReply::Json(JsonNumber::Other)) {
        RelayOutcome::Success { id, url } => {
            assert_eq!(id, 0);
            assert_eq!(url, "https://xjtu.men/t/-/42/0");
        },
        _ => panic!("expected success"),
    }
    match reply_outcome(&host, &topic, UpstreamReply::Json(JsonNumber::Absent)) {
        RelayOutcome::MalformedUpstreamResponse(m) => assert_eq!(m, "failed to get post number from returned json"),
        _ => panic!("expected a malformed answer"),
    }
    match reply_outcome(&host, &topic, UpstreamReply::NotJson("eof".to_string())) {
        RelayOutcome::MalformedUpstreamResponse(m) => assert_eq!(m, "eof"),
        _ => panic!("expected a malformed answer"),
    }
    match reply_outcome(&host, &topic, UpstreamReply::Failed { status: 403, text: "denied".to_string() }) {
        RelayOutcome::UpstreamError { status, detail } => {
            assert_eq!(status, 403);
            assert_eq!(detail, "denied");
        }
        _ => panic!("expected an upstream error"),
    }
}

#[test]
fn new_topic_outcomes() {
    let host = "xjtu.men".to_string();
    match new_topic_outcome(&host, UpstreamReply::Json(JsonNumber::Int(99))) {
        RelayOutcome::Success { id, url } => {
            assert_eq!(id, 99);
            assert_eq!(url, "https://xjtu.men/t/-/99/");
        },
        _ => panic!("expected success"),
    }
    match new_topic_outcome(&host, UpstreamReply::Json(JsonNumber::Absent)) {
        RelayOutcome::MalformedUpstreamResponse(m) => assert_eq!(m, "failed to get topic id from returned json"),
        _ => panic!("expected a malformed answer"),
    }
    match new_topic_outcome(&host, UpstreamReply::Failed { status: 500, text: "".to_string() }) {
        RelayOutcome::UpstreamError { status, .. } => assert_eq!(status, 500),
        _ => panic!("expected an upstream error"),
    }
}

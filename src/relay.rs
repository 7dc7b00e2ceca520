use vstd::prelude::*;
use vstd::string::StringExecFns;
use crate::text::{i64_text, signed_decimal};

verus! {

/// A reply that a visitor posts to an existing topic.
pub struct PostToTopicForm {
    pub content: String,
    pub topic_id: String,
}

/// A new topic that a visitor opens.
pub struct NewTopicForm {
    pub category: String,
    pub topic_content: String,
    pub topic_title: String,
}

/// One field of the JSON object sent upstream.
pub struct Field {
    pub name: String,
    pub value: String,
}

pub open spec fn field_pairs(fs: Seq<Field>) -> Seq<(Seq<char>, Seq<char>)> {
    fs.map_values(|f: Field| (f.name@, f.value@))
}

pub open spec fn reply_fields_of(content: Seq<char>, topic_id: Seq<char>) -> Seq<(Seq<char>, Seq<char>)> {
    seq![
        ("category"@, Seq::<char>::empty()),
        ("title"@, Seq::<char>::empty()),
        ("raw"@, content),
        ("topic_id"@, topic_id),
        ("body"@, "json"@),
    ]
}

pub open spec fn new_topic_fields_of(category: Seq<char>, title: Seq<char>, content: Seq<char>) -> Seq<(Seq<char>, Seq<char>)> {
    seq![
        ("category"@, category),
        ("title"@, title),
        ("raw"@, content),
        ("body"@, "json"@),
    ]
}

fn field(name: &str, value: &str) -> (r: Field)
    ensures
        r.name@ == name@,
        r.value@ == value@,
{
    Field { name: String::from_str(name), value: String::from_str(value) }
}

/// The fields of the upstream request that posts `form` as a reply.
pub fn reply_fields(form: &PostToTopicForm) -> (r: Vec<Field>)
    ensures
        field_pairs(r@) == reply_fields_of(form.content@, form.topic_id@),
{
    proof {
        reveal_strlit("");
        assert(""@ =~= Seq::<char>::empty());
    }
    let mut r: Vec<Field> = Vec::new();
    r.push(field("category", ""));
    r.push(field("title", ""));
    r.push(field("raw", form.content.as_str()));
    r.push(field("topic_id", form.topic_id.as_str()));
    r.push(field("body", "json"));
    assert(field_pairs(r@) =~= reply_fields_of(form.content@, form.topic_id@));
    r
}

/// The fields of the upstream request that opens `form` as a new topic.
pub fn new_topic_fields(form: &NewTopicForm) -> (r: Vec<Field>)
    ensures
        field_pairs(r@) == new_topic_fields_of(form.category@, form.topic_title@, form.topic_content@),
{
    let mut r: Vec<Field> = Vec::new();
    r.push(field("category", form.category.as_str()));
    r.push(field("title", form.topic_title.as_str()));
    r.push(field("raw", form.topic_content.as_str()));
    r.push(field("body", "json"));
    assert(field_pairs(r@) =~= new_topic_fields_of(form.category@, form.topic_title@, form.topic_content@));
    r
}

/// What is read of one field of the upstream's JSON answer.
#[derive(Clone, Copy, Debug, PartialEq, Eq, Structural)]
pub enum JsonNumber {
    /// The field is not there.
    Absent,
    /// The field holds a number that fits in an `i64`.
    Int(i64),
    /// The field holds something else.
    Other,
}

/// The upstream's answer, as the HTTP client read it.
pub enum UpstreamReply {
    /// A status outside 2xx, with the body's text.
    Failed { status: u16, text: String },
    /// A 2xx status whose body is not JSON; the parser's message.
    NotJson(String),
    /// A 2xx status with a JSON body; the field that the relay looks for.
    Json(JsonNumber),
}

/// What the relay makes of the upstream's answer.
pub enum RelayOutcome {
    /// The number the upstream gave what was posted, and its address.
    Success { id: i64, url: String },
    UpstreamError { status: u16, detail: String },
    MalformedUpstreamResponse(String),
}

pub open spec fn reply_url_of(host: Seq<char>, topic_id: Seq<char>, post_number: int) -> Seq<char> {
    "https://"@ + host + "/t/-/"@ + topic_id + "/"@ + signed_decimal(post_number)
}

pub open spec fn new_topic_url_of(host: Seq<char>, topic_id: int) -> Seq<char> {
    "https://"@ + host + "/t/-/"@ + signed_decimal(topic_id) + "/"@
}

/// The number that a present field stands for: its value, or zero where it is
/// not an `i64`.
pub open spec fn number_or_zero(n: JsonNumber) -> int {
    match n {
        JsonNumber::Int(v) => v as int,
        _ => 0,
    }
}

pub open spec fn missing_field_message(field: Seq<char>) -> Seq<char> {
    "failed to get "@ + field + " from returned json"@
}

/// The address of post `post_number` of topic `topic_id` on `host`.
pub fn reply_url(host: &String, topic_id: &String, post_number: i64) -> (r: String)
    ensures
        r@ == reply_url_of(host@, topic_id@, post_number as int),
{
    proof {
        reveal_strlit("https://");
        reveal_strlit("/t/-/");
        reveal_strlit("/");
    }
    let n = i64_text(post_number);
    String::from_str("https://")
        .concat(host.as_str())
        .concat("/t/-/")
        .concat(topic_id.as_str())
        .concat("/")
        .concat(n.as_str())
}

/// The address of topic `topic_id` on `host`.
pub fn new_topic_url(host: &String, topic_id: i64) -> (r: String)
    ensures
        r@ == new_topic_url_of(host@, topic_id as int),
{
    proof {
        reveal_strlit("https://");
        reveal_strlit("/t/-/");
        reveal_strlit("/");
    }
    let n = i64_text(topic_id);
    String::from_str("https://").concat(host.as_str()).concat("/t/-/").concat(n.as_str()).concat("/")
}

fn missing_field(field: &str) -> (r: String)
    ensures
        r@ == missing_field_message(field@),
{
    proof {
        reveal_strlit("failed to get ");
        reveal_strlit(" from returned json");
    }
    String::from_str("failed to get ").concat(field).concat(" from returned json")
}

/// The outcome of posting a reply to `topic_id` on `host`, given the upstream's
/// answer, whose `post_number` field names the new post.
pub fn reply_outcome(host: &String, topic_id: &String, reply: UpstreamReply) -> (r: RelayOutcome)
    ensures
        match reply {
            UpstreamReply::Failed { status, text } => r == (RelayOutcome::UpstreamError { status, detail: text }),
            UpstreamReply::NotJson(msg) => r == RelayOutcome::MalformedUpstreamResponse(msg),
            UpstreamReply::Json(JsonNumber::Absent) => r matches RelayOutcome::MalformedUpstreamResponse(m)
                && m@ == missing_field_message("post number"@),
            UpstreamReply::Json(n) => r matches RelayOutcome::Success { id, url }
                && id == number_or_zero(n) && url@ == reply_url_of(host@, topic_id@, number_or_zero(n)),
        },
{
    match reply {
        UpstreamReply::Failed { status, text } => RelayOutcome::UpstreamError { status, detail: text },
        UpstreamReply::NotJson(msg) => RelayOutcome::MalformedUpstreamResponse(msg),
        UpstreamReply::Json(JsonNumber::Absent) => RelayOutcome::MalformedUpstreamResponse(missing_field("post number")),
        UpstreamReply::Json(JsonNumber::Int(v)) => RelayOutcome::Success { id: v, url: reply_url(host, topic_id, v) },
        UpstreamReply::Json(JsonNumber::Other) => RelayOutcome::Success { id: 0, url: reply_url(host, topic_id, 0) },
    }
}

/// The outcome of opening a topic on `host`, given the upstream's answer, whose
/// `topic_id` field names the new topic.
pub fn new_topic_outcome(host: &String, reply: UpstreamReply) -> (r: RelayOutcome)
    ensures
        match reply {
            UpstreamReply::Failed { status, text } => r == (RelayOutcome::UpstreamError { status, detail: text }),
            UpstreamReply::NotJson(msg) => r == RelayOutcome::MalformedUpstreamResponse(msg),
            UpstreamReply::Json(JsonNumber::Absent) => r matches RelayOutcome::MalformedUpstreamResponse(m)
                && m@ == missing_field_message("topic id"@),
            UpstreamReply::Json(n) => r matches RelayOutcome::Success { id, url }
                && id == number_or_zero(n) && url@ == new_topic_url_of(host@, number_or_zero(n)),
        },
{
    match reply {
        UpstreamReply::Failed { status, text } => RelayOutcome::UpstreamError { status, detail: text },
        UpstreamReply::NotJson(msg) => RelayOutcome::MalformedUpstreamResponse(msg),
        UpstreamReply::Json(JsonNumber::Absent) => RelayOutcome::MalformedUpstreamResponse(missing_field("topic id")),
        UpstreamReply::Json(JsonNumber::Int(v)) => RelayOutcome::Success { id: v, url: new_topic_url(host, v) },
        UpstreamReply::Json(JsonNumber::Other) => RelayOutcome::Success { id: 0, url: new_topic_url(host, 0) },
    }
}

} // verus!

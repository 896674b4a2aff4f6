//! What a sink is told once, before the first frame: the name of its
//! channel and the schema of what will be sent on it.

use vstd::prelude::*;
use vstd::string::*;

verus! {

/// The binding of a telemetry stream to a channel of a sink.
#[derive(Clone, Debug, PartialEq, Eq)]
pub struct SinkRegistration {
    /// Topic or channel name.
    pub topic: String,
    /// How messages on the channel are encoded.
    pub content_type: String,
    /// Fully qualified name of the message type.
    pub schema_name: String,
    /// The schema itself.
    pub schema_data: Vec<u8>,
    /// How the schema is encoded.
    pub schema_encoding: String,
    /// Whether a late subscriber is sent the last message at once.
    pub latched: bool,
}

/// What a registration says.
pub struct SinkRegistrationView {
    pub topic: Seq<char>,
    pub content_type: Seq<char>,
    pub schema_name: Seq<char>,
    pub schema_data: Seq<u8>,
    pub schema_encoding: Seq<char>,
    pub latched: bool,
}

impl View for SinkRegistration {
    type V = SinkRegistrationView;

    open spec fn view(&self) -> SinkRegistrationView {
        SinkRegistrationView {
            topic: self.topic@,
            content_type: self.content_type@,
            schema_name: self.schema_name@,
            schema_data: self.schema_data@,
            schema_encoding: self.schema_encoding@,
            latched: self.latched,
        }
    }
}

/// `text` without the slashes at its start.
pub open spec fn without_leading_slashes(text: Seq<char>) -> Seq<char>
    decreases text.len(),
{
    if text.len() > 0 && text.first() == '/' {
        without_leading_slashes(text.drop_first())
    } else {
        text
    }
}

/// `text` without the slashes at its end.
pub open spec fn without_trailing_slashes(text: Seq<char>) -> Seq<char>
    decreases text.len(),
{
    if text.len() > 0 && text.last() == '/' {
        without_trailing_slashes(text.drop_last())
    } else {
        text
    }
}

/// The name of a stream under a prefix: the two joined by a slash, and the
/// slashes at either end taken off, so that an empty prefix leaves the
/// plain name.
pub open spec fn topic_of(prefix: Seq<char>, name: Seq<char>) -> Seq<char> {
    without_trailing_slashes(without_leading_slashes(prefix + seq!['/'] + name))
}

proof fn lemma_leading_slashes(text: Seq<char>, start: int)
    requires
        0 <= start <= text.len(),
        forall|i: int| 0 <= i < start ==> text[i] == '/',
    ensures
        without_leading_slashes(text) == without_leading_slashes(
            text.subrange(start, text.len() as int),
        ),
    decreases start,
{
    if start == 0 {
        assert(text.subrange(0, text.len() as int) =~= text);
    } else {
        let rest = text.drop_first();
        lemma_leading_slashes(rest, start - 1);
        assert(rest.subrange(start - 1, rest.len() as int) =~= text.subrange(
            start,
            text.len() as int,
        ));
    }
}

proof fn lemma_trailing_slashes(text: Seq<char>, end: int)
    requires
        0 <= end <= text.len(),
        forall|i: int| end <= i < text.len() ==> text[i] == '/',
    ensures
        without_trailing_slashes(text) == without_trailing_slashes(text.subrange(0, end)),
    decreases text.len() - end,
{
    if end == text.len() {
        assert(text.subrange(0, end) =~= text);
    } else {
        let rest = text.drop_last();
        lemma_trailing_slashes(rest, end);
        assert(rest.subrange(0, end) =~= text.subrange(0, end));
    }
}

/// Names a stream under a prefix, as `topic_of` says.
pub fn topic_path(prefix: &str, name: &str) -> (topic: String)
    ensures
        topic@ == topic_of(prefix@, name@),
{
    let mut joined = String::from_str(prefix);
    joined.append("/");
    joined.append(name);
    proof {
        reveal_strlit("/");
        assert("/"@ =~= seq!['/']);
    }
    let text = joined.as_str();
    let len: usize = text.unicode_len();
    let mut start: usize = 0;
    while start < len && text.get_char(start) == '/'
        invariant
            start <= len,
            len == text@.len(),
            forall|i: int| 0 <= i < start ==> text@[i] == '/',
        decreases len - start,
    {
        start = start + 1;
    }
    let mut end: usize = len;
    while end > start && text.get_char(end - 1) == '/'
        invariant
            start <= end <= len,
            len == text@.len(),
            forall|i: int| end <= i < len ==> text@[i] == '/',
        decreases end,
    {
        end = end - 1;
    }
    proof {
        let tail = text@.subrange(start as int, len as int);
        lemma_leading_slashes(text@, start as int);
        assert(without_leading_slashes(tail) == tail);
        assert forall|i: int| end - start <= i < tail.len() implies tail[i] == '/' by {
            assert(tail[i] == text@[i + start]);
        }
        lemma_trailing_slashes(tail, end - start);
        assert(tail.subrange(0, end - start) =~= text@.subrange(start as int, end as int));
    }
    text.substring_char(start, end).to_owned()
}

/// The registration of a stream of protobuf messages: messages and schema
/// are both protobuf-encoded, the schema is the descriptor set that
/// defines `message_type`, and the channel is not latched.
pub fn protobuf_registration(topic: &str, message_type: &str, descriptor_set: Vec<u8>) -> (registration:
    SinkRegistration)
    ensures
        registration@ == (SinkRegistrationView {
            topic: topic@,
            content_type: "protobuf"@,
            schema_name: message_type@,
            schema_data: descriptor_set@,
            schema_encoding: "protobuf"@,
            latched: false,
        }),
{
    SinkRegistration {
        topic: topic.to_owned(),
        content_type: "protobuf".to_owned(),
        schema_name: message_type.to_owned(),
        schema_data: descriptor_set,
        schema_encoding: "protobuf".to_owned(),
        latched: false,
    }
}

/// The registration of a stream of JSON messages described by a JSON
/// schema.
pub fn json_registration(topic: &str, message_type: &str, json_schema: &str, latched: bool) -> (registration:
    SinkRegistration)
    ensures
        registration@ == (SinkRegistrationView {
            topic: topic@,
            content_type: "json"@,
            schema_name: message_type@,
            schema_data: json_schema.spec_bytes(),
            schema_encoding: "jsonschema"@,
            latched,
        }),
{
    SinkRegistration {
        topic: topic.to_owned(),
        content_type: "json".to_owned(),
        schema_name: message_type.to_owned(),
        schema_data: json_schema.as_bytes_vec(),
        schema_encoding: "jsonschema".to_owned(),
        latched,
    }
}

} // verus!

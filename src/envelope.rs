//! The wire envelope: tolerant decoding of inbound command requests and the
//! construction and encoding of outbound responses.
use vstd::prelude::*;
use crate::executor::CommandResult;
use crate::text::{digit_char, text_view};

verus! {

#[verifier::external_type_specification]
#[verifier::external_body]
pub struct ExJsonValue(serde_json::Value);

#[verifier::external_type_specification]
#[verifier::external_body]
pub struct ExJsonError(serde_json::Error);

/// Whether `serde_json` accepts the text as one JSON document.
pub uninterp spec fn json_accepts(text: Seq<char>) -> bool;

/// Whether the chain of lookups `Value::get(k)` along `path`, starting from
/// the value that `serde_json` parses from `text`, finds a value at each step.
pub uninterp spec fn json_found(text: Seq<char>, path: Seq<Seq<char>>) -> bool;

/// The text of the JSON string found along `path` in the value parsed from
/// `text`, as `Value::as_str` gives it; `None` when that value is not a string.
pub uninterp spec fn json_string_at(text: Seq<char>, path: Seq<Seq<char>>) -> Option<Seq<char>>;

/// A JSON value, with the text it was parsed from and the keys that led to it.
pub struct JsonAt {
    value: serde_json::Value,
    pub source: Ghost<Seq<char>>,
    pub path: Ghost<Seq<Seq<char>>>,
}

/// Relies on `serde_json::from_str`: it parses the text as a JSON value and
/// fails exactly when the text is not one JSON document.
#[verifier::external_body]
fn parse_json(text: &str) -> (r: Result<JsonAt, serde_json::Error>)
    ensures
        r is Ok <==> json_accepts(text@),
        r matches Ok(j) ==> j.source@ == text@ && j.path@ == Seq::<Seq<char>>::empty(),
{
    serde_json::from_str::<serde_json::Value>(text).map(|value| JsonAt { value, source: Ghost(text@), path: Ghost(Seq::empty()) })
}

/// Relies on `serde_json::Value::get`: the member of an object under `key`;
/// `None` when the value is no object or has no such member.
#[verifier::external_body]
fn json_member(j: &JsonAt, key: &str) -> (r: Option<JsonAt>)
    ensures
        r is Some <==> json_found(j.source@, j.path@.push(key@)),
        r matches Some(m) ==> m.source@ == j.source@ && m.path@ == j.path@.push(key@),
{
    j.value.get(key).map(|v| JsonAt { value: v.clone(), source: Ghost(j.source@), path: Ghost(j.path@.push(key@)) })
}

/// Relies on `serde_json::Value::as_str`: the text of a JSON string.
#[verifier::external_body]
fn json_as_text(j: &JsonAt) -> (r: Option<String>)
    ensures
        text_view(r) == json_string_at(j.source@, j.path@),
{
    j.value.as_str().map(String::from)
}

/// A lower-case hexadecimal digit.
pub open spec fn hex_lower(d: nat) -> char {
    if d < 10 {
        digit_char(d)
    } else if d == 10 {
        'a'
    } else if d == 11 {
        'b'
    } else if d == 12 {
        'c'
    } else if d == 13 {
        'd'
    } else if d == 14 {
        'e'
    } else {
        'f'
    }
}

/// How a JSON string writes one character.
pub open spec fn json_escaped_char(c: char) -> Seq<char> {
    if c == '"' {
        seq!['\\', '"']
    } else if c == '\\' {
        seq!['\\', '\\']
    } else if c == '\x08' {
        seq!['\\', 'b']
    } else if c == '\t' {
        seq!['\\', 't']
    } else if c == '\n' {
        seq!['\\', 'n']
    } else if c == '\x0c' {
        seq!['\\', 'f']
    } else if c == '\r' {
        seq!['\\', 'r']
    } else if (c as u32) < 0x20 {
        seq!['\\', 'u', '0', '0', hex_lower(((c as u32) / 16) as nat), hex_lower(((c as u32) % 16) as nat)]
    } else {
        seq![c]
    }
}

pub open spec fn json_escaped(s: Seq<char>) -> Seq<char>
    decreases s.len(),
{
    if s.len() == 0 {
        Seq::empty()
    } else {
        json_escaped_char(s[0]) + json_escaped(s.drop_first())
    }
}

/// The compact JSON text of a string.
pub open spec fn json_quoted(s: Seq<char>) -> Seq<char> {
    seq!['"'] + json_escaped(s) + seq!['"']
}

/// The members of a compact JSON object, in the given order.
pub open spec fn json_members(keys: Seq<Seq<char>>, texts: Seq<Seq<char>>) -> Seq<char>
    decreases keys.len(),
{
    if keys.len() == 0 {
        Seq::empty()
    } else {
        json_quoted(keys[0]) + seq![':'] + texts[0] + (if keys.len() > 1 { seq![','] } else { Seq::empty() })
            + json_members(keys.drop_first(), texts.drop_first())
    }
}

/// The compact JSON text of an object with these members.
pub open spec fn json_object_text(keys: Seq<Seq<char>>, texts: Seq<Seq<char>>) -> Seq<char> {
    seq!['{'] + json_members(keys, texts) + seq!['}']
}

/// Whether `a` comes strictly before `b`, character by character.
pub open spec fn text_less(a: Seq<char>, b: Seq<char>) -> bool
    decreases a.len(),
{
    if a.len() == 0 {
        b.len() > 0
    } else if b.len() == 0 {
        false
    } else if a[0] != b[0] {
        a[0] < b[0]
    } else {
        text_less(a.drop_first(), b.drop_first())
    }
}

pub open spec fn key_texts(keys: Seq<&str>) -> Seq<Seq<char>> {
    keys.map(|i: int, k: &str| k@)
}

pub open spec fn value_texts(values: Seq<JsonOut>) -> Seq<Seq<char>> {
    values.map(|i: int, v: JsonOut| v.text@)
}

/// Keys in strictly ascending order, as an object's map keeps them.
pub open spec fn keys_ascending(keys: Seq<Seq<char>>) -> bool {
    forall|i: int| 0 <= i < keys.len() - 1 ==> #[trigger] text_less(keys[i], keys[i + 1])
}

/// A JSON value built for output, with the compact text it serializes to.
pub struct JsonOut {
    pub value: serde_json::Value,
    pub text: Ghost<Seq<char>>,
}

/// Relies on `serde_json::Value::String`, which serializes with the escapes
/// of serde_json's `ESCAPE` table.
#[verifier::external_body]
pub(crate) fn json_string(s: &str) -> (r: JsonOut)
    ensures
        r.text@ == json_quoted(s@),
{
    JsonOut { value: serde_json::Value::String(s.to_string()), text: Ghost(json_quoted(s@)) }
}

/// Relies on `serde_json::Value::Null`, which serializes as `null`.
#[verifier::external_body]
pub(crate) fn json_null() -> (r: JsonOut)
    ensures
        r.text@ == "null"@,
{
    JsonOut { value: serde_json::Value::Null, text: Ghost("null"@) }
}

/// Relies on `serde_json::Value::Object`: an object whose map iterates its
/// keys in ascending order (and in insertion order when order is preserved),
/// so keys given in ascending order serialize in that order.
#[verifier::external_body]
pub(crate) fn json_object(keys: Vec<&str>, values: Vec<JsonOut>) -> (r: JsonOut)
    requires
        keys@.len() == values@.len(),
        keys_ascending(key_texts(keys@)),
    ensures
        r.text@ == json_object_text(key_texts(keys@), value_texts(values@)),
{
    let text = Ghost(json_object_text(key_texts(keys@), value_texts(values@)));
    let map = keys.into_iter().map(String::from).zip(values.into_iter().map(|v| v.value)).collect();
    JsonOut { value: serde_json::Value::Object(map), text }
}

/// Relies on the `Display` of `serde_json::Value`: its compact JSON text.
#[verifier::external_body]
pub(crate) fn json_to_text(v: &JsonOut) -> (r: String)
    ensures
        r@ == v.text@,
{
    v.value.to_string()
}

/// Relies on `uuid::Uuid::new_v4`: a random identifier in its text form.
#[verifier::external_body]
pub(crate) fn fresh_id() -> (r: String) {
    uuid::Uuid::new_v4().to_string()
}

/// A command request taken from an inbound envelope.
pub struct CommandRequest {
    /// The command text; empty when the command field is not a string.
    pub command: String,
    /// The inbound `message.id`; empty when absent or not a string.
    pub request_id: String,
}

/// The inbound text was not JSON.
#[derive(Clone, Copy, Debug, PartialEq, Eq)]
pub enum DecodeError {
    Malformed,
}

pub open spec fn text_or_empty(t: Option<String>) -> Seq<char> {
    match t {
        Some(s) => s@,
        None => Seq::empty(),
    }
}

/// The request named by the fields read from an envelope: `command` is
/// `None` when `message.data.command` is absent, `Some(None)` when it is
/// present but not a string; `id` is the text of `message.id`, if any.
pub fn request_from_fields(command: Option<Option<String>>, id: Option<String>) -> (r: Option<CommandRequest>)
    ensures
        command is None <==> r is None,
        command matches Some(c) ==> r matches Some(q) && q.command@ == text_or_empty(c)
            && q.request_id@ == text_or_empty(id),
{
    match command {
        None => None,
        Some(c) => {
            let command = match c {
                Some(s) => s,
                None => String::new(),
            };
            let request_id = match id {
                Some(s) => s,
                None => String::new(),
            };
            Some(CommandRequest { command, request_id })
        },
    }
}

/// The path of the command of a request.
pub open spec fn command_path() -> Seq<Seq<char>> {
    seq!["message"@, "data"@, "command"@]
}

/// The path of the identifier of a request.
pub open spec fn id_path() -> Seq<Seq<char>> {
    seq!["message"@, "id"@]
}

/// Whether the value parsed from `text` has `message.data.command`.
pub open spec fn has_command(text: Seq<char>) -> bool {
    json_found(text, seq!["message"@]) && json_found(text, seq!["message"@, "data"@])
        && json_found(text, command_path())
}

/// The text of `message.id`, empty when absent or not a string.
pub open spec fn request_id_of(text: Seq<char>) -> Seq<char> {
    if json_found(text, seq!["message"@]) && json_found(text, id_path()) {
        match json_string_at(text, id_path()) {
            Some(s) => s,
            None => Seq::empty(),
        }
    } else {
        Seq::empty()
    }
}

/// The text of `message.data.command`, empty when not a string.
pub open spec fn command_of(text: Seq<char>) -> Seq<char> {
    match json_string_at(text, command_path()) {
        Some(s) => s,
        None => Seq::empty(),
    }
}

/// Decodes one inbound text frame. Text that is not JSON is an error; a JSON
/// value without `message.data.command` holds no request; otherwise the
/// request carries the command and `message.id`, each empty when not a string.
pub fn decode_request(text: &str) -> (r: Result<Option<CommandRequest>, DecodeError>)
    ensures
        r is Err <==> !json_accepts(text@),
        r is Err ==> r == Err::<Option<CommandRequest>, DecodeError>(DecodeError::Malformed),
        r matches Ok(o) ==> (o is Some <==> has_command(text@)),
        r matches Ok(Some(q)) ==> q.command@ == command_of(text@) && q.request_id@ == request_id_of(text@),
{
    let frame = match parse_json(text) {
        Ok(v) => v,
        Err(_) => return Err(DecodeError::Malformed),
    };
    proof {
        reveal_strlit("message");
        reveal_strlit("data");
        reveal_strlit("command");
        reveal_strlit("id");
        assert(Seq::<Seq<char>>::empty().push("message"@) == seq!["message"@]);
        assert(seq!["message"@].push("data"@) == seq!["message"@, "data"@]);
        assert(seq!["message"@, "data"@].push("command"@) == command_path());
        assert(seq!["message"@].push("id"@) == id_path());
    }
    let message = match json_member(&frame, "message") {
        Some(m) => m,
        None => return Ok(None),
    };
    let command = match json_member(&message, "data") {
        Some(data) => match json_member(&data, "command") {
            Some(c) => Some(json_as_text(&c)),
            None => None,
        },
        None => None,
    };
    let id = match json_member(&message, "id") {
        Some(i) => json_as_text(&i),
        None => None,
    };
    Ok(request_from_fields(command, id))
}

/// The payload of a response: the output text, and the error when the
/// command could not be run.
pub struct ResponseData {
    pub output: String,
    pub error: Option<String>,
}

pub struct EnvelopeMessage {
    pub msg_type: String,
    pub id: String,
    pub data: ResponseData,
    pub correlation_id: Option<String>,
}

pub struct Envelope {
    pub action: String,
    pub channel_id: String,
    pub client_type: String,
    pub message: EnvelopeMessage,
}

/// The identifier of a response: the fresh one, made distinct from the
/// request's in the unlikely case that the two agree.
pub open spec fn response_id(fresh: Seq<char>, request: Seq<char>) -> Seq<char> {
    if fresh == request {
        fresh + seq!['-']
    } else {
        fresh
    }
}

pub open spec fn same_text(a: Option<String>, b: Option<String>) -> bool {
    match (a, b) {
        (None, None) => true,
        (Some(x), Some(y)) => x@ == y@,
        _ => false,
    }
}

fn copy_text(t: &Option<String>) -> (r: Option<String>)
    ensures
        same_text(*t, r),
{
    match t {
        Some(s) => Some(s.clone()),
        None => None,
    }
}

/// The response envelope to `request`, sent on channel `token`, carrying
/// `result` under a new identifier built from `fresh`.
pub fn build_response(token: &str, request: &CommandRequest, fresh: &str, result: &CommandResult) -> (r: Envelope)
    ensures
        r.action@ == "message"@,
        r.channel_id@ == token@,
        r.client_type@ == "server"@,
        r.message.msg_type@ == "response"@,
        r.message.id@ == response_id(fresh@, request.request_id@),
        r.message.id@ != request.request_id@,
        r.message.correlation_id matches Some(c) && c@ == request.request_id@,
        r.message.data.output@ == result.output@,
        same_text(result.error, r.message.data.error),
{
    let mut id = String::from_str(fresh);
    if string_eq(fresh, request.request_id.as_str()) {
        proof {
            reveal_strlit("-");
        }
        id.append("-");
        assert(id@.len() == request.request_id@.len() + 1);
    }
    Envelope {
        action: String::from_str("message"),
        channel_id: String::from_str(token),
        client_type: String::from_str("server"),
        message: EnvelopeMessage {
            msg_type: String::from_str("response"),
            id,
            data: ResponseData { output: result.output.clone(), error: copy_text(&result.error) },
            correlation_id: Some(request.request_id.clone()),
        },
    }
}

/// Whether two texts are equal.
pub fn string_eq(a: &str, b: &str) -> (r: bool)
    ensures
        r == (a@ == b@),
{
    let n = a.unicode_len();
    if n != b.unicode_len() {
        return false;
    }
    let mut i: usize = 0;
    while i < n
        invariant
            n == a@.len(),
            n == b@.len(),
            i <= n,
            forall|k: int| 0 <= k < i ==> a@[k] == b@[k],
        decreases n - i,
    {
        if a.get_char(i) != b.get_char(i) {
            return false;
        }
        i = i + 1;
    }
    assert(a@ == b@);
    true
}

pub open spec fn optional_json(t: Option<String>) -> Seq<char> {
    match t {
        Some(s) => json_quoted(s@),
        None => "null"@,
    }
}

/// The compact JSON text of an envelope, members in ascending key order; a
/// missing correlation id is left out.
pub open spec fn envelope_text(e: Envelope) -> Seq<char> {
    let data = json_object_text(
        seq!["error"@, "output"@],
        seq![optional_json(e.message.data.error), json_quoted(e.message.data.output@)],
    );
    let message = match e.message.correlation_id {
        Some(c) => json_object_text(
            seq!["correlationId"@, "data"@, "id"@, "type"@],
            seq![json_quoted(c@), data, json_quoted(e.message.id@), json_quoted(e.message.msg_type@)],
        ),
        None => json_object_text(
            seq!["data"@, "id"@, "type"@],
            seq![data, json_quoted(e.message.id@), json_quoted(e.message.msg_type@)],
        ),
    };
    json_object_text(
        seq!["action"@, "channelId"@, "clientType"@, "message"@],
        seq![json_quoted(e.action@), json_quoted(e.channel_id@), json_quoted(e.client_type@), message],
    )
}

fn optional_text(t: &Option<String>) -> (r: JsonOut)
    ensures
        r.text@ == optional_json(*t),
{
    match t {
        Some(s) => json_string(s.as_str()),
        None => {
            proof {
                reveal_strlit("null");
            }
            json_null()
        },
    }
}

/// The JSON text of an envelope.
pub fn encode_envelope(e: &Envelope) -> (r: String)
    ensures
        r@ == envelope_text(*e),
{
    proof {
        reveal_strlit("error");
        reveal_strlit("output");
        reveal_strlit("correlationId");
        reveal_strlit("data");
        reveal_strlit("id");
        reveal_strlit("type");
        reveal_strlit("action");
        reveal_strlit("channelId");
        reveal_strlit("clientType");
        reveal_strlit("message");
        reveal_with_fuel(text_less, 3);
    }
    let out = json_string(e.message.data.output.as_str());
    let err = optional_text(&e.message.data.error);
    let data_keys = vec!["error", "output"];
    let data_values = vec![err, out];
    assert(key_texts(data_keys@) =~= seq!["error"@, "output"@]);
    assert(value_texts(data_values@) =~= seq![optional_json(e.message.data.error), json_quoted(e.message.data.output@)]);
    let data = json_object(data_keys, data_values);
    let id = json_string(e.message.id.as_str());
    let ty = json_string(e.message.msg_type.as_str());
    let message = match &e.message.correlation_id {
        Some(c) => {
            let keys = vec!["correlationId", "data", "id", "type"];
            let values = vec![json_string(c.as_str()), data, id, ty];
            assert(key_texts(keys@) =~= seq!["correlationId"@, "data"@, "id"@, "type"@]);
            assert(value_texts(values@) =~= seq![json_quoted(c@), data.text@, json_quoted(e.message.id@), json_quoted(e.message.msg_type@)]);
            json_object(keys, values)
        },
        None => {
            let keys = vec!["data", "id", "type"];
            let values = vec![data, id, ty];
            assert(key_texts(keys@) =~= seq!["data"@, "id"@, "type"@]);
            assert(value_texts(values@) =~= seq![data.text@, json_quoted(e.message.id@), json_quoted(e.message.msg_type@)]);
            json_object(keys, values)
        },
    };
    let keys = vec!["action", "channelId", "clientType", "message"];
    let values = vec![
        json_string(e.action.as_str()),
        json_string(e.channel_id.as_str()),
        json_string(e.client_type.as_str()),
        message,
    ];
    assert(key_texts(keys@) =~= seq!["action"@, "channelId"@, "clientType"@, "message"@]);
    assert(value_texts(values@) =~= seq![json_quoted(e.action@), json_quoted(e.channel_id@), json_quoted(e.client_type@), message.text@]);
    let envelope = json_object(keys, values);
    json_to_text(&envelope)
}

} // verus!

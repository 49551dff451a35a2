//! The reconnect state machine of the agent, and the connection address of a
//! session. The caller performs each action and reports what came of it.
use vstd::prelude::*;
use crate::config::Config;
use crate::envelope::{
    json_object, json_object_text, json_quoted, json_string, json_to_text, key_texts, text_less,
    value_texts,
};
use vstd::utf8::encode_utf8;
use crate::router::{termination_of, refreshed, InboundFrame, Termination};
use crate::liveness::LivenessState;
use crate::text::{contains_text, digit_char, occurs_in, text_view};

verus! {

/// Fixed wait between the end of one attempt and the next.
pub const RETRY_DELAY_MS: u64 = 5000;

/// Whether `application/x-www-form-urlencoded` keeps a byte as it is.
pub open spec fn form_unchanged(b: u8) -> bool {
    b == 0x2a || b == 0x2d || b == 0x2e || (0x30 <= b <= 0x39) || (0x41 <= b <= 0x5a) || b == 0x5f
        || (0x61 <= b <= 0x7a)
}

/// An upper-case hexadecimal digit.
pub open spec fn hex_upper(d: nat) -> char {
    if d < 10 {
        digit_char(d)
    } else if d == 10 {
        'A'
    } else if d == 11 {
        'B'
    } else if d == 12 {
        'C'
    } else if d == 13 {
        'D'
    } else if d == 14 {
        'E'
    } else {
        'F'
    }
}

/// The encoding of one byte: itself, `+` for a space, else `%` and two
/// upper-case hexadecimal digits.
pub open spec fn form_encoded_byte(b: u8) -> Seq<char> {
    if form_unchanged(b) {
        seq![b as char]
    } else if b == 0x20 {
        seq!['+']
    } else {
        seq!['%', hex_upper((b / 16) as nat), hex_upper((b % 16) as nat)]
    }
}

/// The `application/x-www-form-urlencoded` encoding of a byte string.
pub open spec fn form_encoded(bs: Seq<u8>) -> Seq<char>
    decreases bs.len(),
{
    if bs.len() == 0 {
        Seq::empty()
    } else {
        form_encoded_byte(bs[0]) + form_encoded(bs.drop_first())
    }
}

/// Relies on `form_urlencoded::byte_serialize`, which keeps the bytes
/// `*-._`, digits and ASCII letters, writes a space as `+` and any other
/// byte as `%XX` with upper-case digits.
#[verifier::external_body]
fn form_encode(b: &[u8]) -> (r: String)
    ensures
        r@ == form_encoded(b@),
{
    form_urlencoded::byte_serialize(b).collect::<String>()
}

/// The compact JSON text of the description of this client, members in
/// ascending key order.
pub open spec fn metadata_text(version: Seq<char>, os: Seq<char>, working_dir: Seq<char>) -> Seq<char> {
    json_object_text(
        seq!["os"@, "type"@, "version"@, "working_dir"@],
        seq![json_quoted(os), json_quoted("terminal"@), json_quoted(version), json_quoted(working_dir)],
    )
}

/// The JSON description of this client sent when connecting.
pub fn metadata_json(version: &str, os: &str, working_dir: &str) -> (r: String)
    ensures
        r@ == metadata_text(version@, os@, working_dir@),
{
    proof {
        reveal_strlit("os");
        reveal_strlit("type");
        reveal_strlit("version");
        reveal_strlit("working_dir");
        reveal_with_fuel(text_less, 3);
    }
    let keys = vec!["os", "type", "version", "working_dir"];
    let values = vec![json_string(os), json_string("terminal"), json_string(version), json_string(working_dir)];
    assert(key_texts(keys@) =~= seq!["os"@, "type"@, "version"@, "working_dir"@]);
    assert(value_texts(values@) =~= seq![json_quoted(os@), json_quoted("terminal"@), json_quoted(version@), json_quoted(working_dir@)]);
    let v = json_object(keys, values);
    json_to_text(&v)
}

/// The client description in the form carried by the connection address:
/// the form encoding of the UTF-8 bytes of its JSON text.
pub fn metadata_param(version: &str, os: &str, working_dir: &str) -> (r: String)
    ensures
        r@ == form_encoded(encode_utf8(metadata_text(version@, os@, working_dir@))),
{
    let j = metadata_json(version, os, working_dir);
    form_encode(j.as_str().as_bytes())
}

/// The address of a session: the resolved URL with the client type, the
/// channel and, when given, the encoded client description as parameters.
pub open spec fn connection_url_of(ws_url: Seq<char>, token: Seq<char>, metadata: Option<Seq<char>>) -> Seq<char> {
    ws_url + "?clientType=server&channelId="@ + token + match metadata {
        Some(m) => "&metadata="@ + m,
        None => Seq::empty(),
    }
}

/// Builds the address of a session.
pub fn connection_url(ws_url: &str, token: &str, metadata: &Option<String>) -> (r: String)
    ensures
        r@ == connection_url_of(ws_url@, token@, text_view(*metadata)),
{
    let mut s = String::from_str(ws_url);
    s.append("?clientType=server&channelId=");
    s.append(token);
    let ghost before = s@;
    match metadata {
        Some(m) => {
            s.append("&metadata=");
            s.append(m.as_str());
            assert(s@ == before + ("&metadata="@ + m@));
        },
        None => {
            assert(s@ == before + Seq::<char>::empty());
        },
    }
    s
}

/// Whether a failure description reports an authorization refusal.
pub fn is_unauthorized(message: &str) -> (r: bool)
    ensures
        r == occurs_in(message@, "401"@),
{
    contains_text(message, "401")
}

#[derive(Clone, Copy, Debug, PartialEq, Eq)]
pub enum SessionState {
    Idle,
    Resolving,
    Connected,
    Terminated,
}

/// What the caller reports back.
pub enum SessionEvent {
    Start,
    /// The resolution collaborator returned this URL.
    Resolved(String),
    /// The resolution failed with this description.
    ResolveFailed(String),
    Connected,
    ConnectFailed,
    Ended(Termination),
    DelayElapsed,
}

/// What the caller does next.
pub enum SessionAction {
    Nothing,
    /// Ask the resolution collaborator for a URL.
    Resolve,
    /// Open the transport to this address.
    Connect(String),
    /// Run the session's activities until one of them ends it.
    Serve,
    /// Wait, after showing the authorization page when one is given.
    Wait { delay_ms: u64, reauth_url: Option<String> },
}

#[derive(Clone, Copy, Debug, PartialEq, Eq)]
pub enum StepKind {
    Nothing,
    Resolve,
    Connect,
    Serve,
    Wait,
}

pub open spec fn kind_of(a: SessionAction) -> StepKind {
    match a {
        SessionAction::Nothing => StepKind::Nothing,
        SessionAction::Resolve => StepKind::Resolve,
        SessionAction::Connect(_) => StepKind::Connect,
        SessionAction::Serve => StepKind::Serve,
        SessionAction::Wait { .. } => StepKind::Wait,
    }
}

pub open spec fn next_state(s: SessionState, e: SessionEvent) -> SessionState {
    match (s, e) {
        (SessionState::Idle, SessionEvent::Start) => SessionState::Resolving,
        (SessionState::Resolving, SessionEvent::Connected) => SessionState::Connected,
        (SessionState::Resolving, SessionEvent::ResolveFailed(_)) => SessionState::Terminated,
        (SessionState::Resolving, SessionEvent::ConnectFailed) => SessionState::Terminated,
        (SessionState::Connected, SessionEvent::Ended(_)) => SessionState::Terminated,
        (SessionState::Terminated, SessionEvent::DelayElapsed) => SessionState::Resolving,
        _ => s,
    }
}

pub open spec fn step_kind(s: SessionState, e: SessionEvent) -> StepKind {
    match (s, e) {
        (SessionState::Idle, SessionEvent::Start) => StepKind::Resolve,
        (SessionState::Resolving, SessionEvent::Resolved(_)) => StepKind::Connect,
        (SessionState::Resolving, SessionEvent::Connected) => StepKind::Serve,
        (SessionState::Resolving, SessionEvent::ResolveFailed(_)) => StepKind::Wait,
        (SessionState::Resolving, SessionEvent::ConnectFailed) => StepKind::Wait,
        (SessionState::Connected, SessionEvent::Ended(_)) => StepKind::Wait,
        (SessionState::Terminated, SessionEvent::DelayElapsed) => StepKind::Resolve,
        _ => StepKind::Nothing,
    }
}

/// Whether the step shows the authorization page: a resolution failure that
/// reports an authorization refusal.
pub open spec fn prompts_reauth(s: SessionState, e: SessionEvent) -> bool {
    s == SessionState::Resolving && match e {
        SessionEvent::ResolveFailed(m) => occurs_in(m@, "401"@),
        _ => false,
    }
}

pub struct SessionManager {
    pub state: SessionState,
    pub config: Config,
    /// The channel token, fixed for the life of the process.
    pub token: String,
    /// The encoded client description, if any.
    pub metadata: Option<String>,
}

impl SessionManager {
    pub fn new(config: Config, token: String, metadata: Option<String>) -> (r: SessionManager)
        ensures
            r.state == SessionState::Idle,
            r.config == config,
            r.token == token,
            r.metadata == metadata,
    {
        SessionManager { state: SessionState::Idle, config, token, metadata }
    }

    /// Takes one event; returns the next action. Every failure leads to a
    /// wait of the fixed delay and then to a new resolution, without end.
    pub fn step(&mut self, event: SessionEvent) -> (r: SessionAction)
        ensures
            final(self).state == next_state(old(self).state, event),
            final(self).config == old(self).config,
            final(self).token == old(self).token,
            final(self).metadata == old(self).metadata,
            kind_of(r) == step_kind(old(self).state, event),
            r matches SessionAction::Connect(u) ==> event matches SessionEvent::Resolved(w) && u@
                == connection_url_of(w@, old(self).token@, text_view(old(self).metadata)),
            r matches SessionAction::Wait { delay_ms, reauth_url } ==> delay_ms == RETRY_DELAY_MS
                && (reauth_url is Some <==> prompts_reauth(old(self).state, event))
                && (reauth_url matches Some(u) ==> u@ == old(self).config.base_url@ + "auth/"@
                + old(self).token@),
    {
        match (self.state, event) {
            (SessionState::Idle, SessionEvent::Start) => {
                self.state = SessionState::Resolving;
                SessionAction::Resolve
            },
            (SessionState::Resolving, SessionEvent::Resolved(w)) => {
                SessionAction::Connect(connection_url(w.as_str(), self.token.as_str(), &self.metadata))
            },
            (SessionState::Resolving, SessionEvent::Connected) => {
                self.state = SessionState::Connected;
                SessionAction::Serve
            },
            (SessionState::Resolving, SessionEvent::ResolveFailed(m)) => {
                self.state = SessionState::Terminated;
                let reauth_url = if is_unauthorized(m.as_str()) {
                    Some(self.config.auth_url(self.token.as_str()))
                } else {
                    None
                };
                SessionAction::Wait { delay_ms: RETRY_DELAY_MS, reauth_url }
            },
            (SessionState::Resolving, SessionEvent::ConnectFailed) => {
                self.state = SessionState::Terminated;
                SessionAction::Wait { delay_ms: RETRY_DELAY_MS, reauth_url: None }
            },
            (SessionState::Connected, SessionEvent::Ended(_)) => {
                self.state = SessionState::Terminated;
                SessionAction::Wait { delay_ms: RETRY_DELAY_MS, reauth_url: None }
            },
            (SessionState::Terminated, SessionEvent::DelayElapsed) => {
                self.state = SessionState::Resolving;
                SessionAction::Resolve
            },
            _ => SessionAction::Nothing,
        }
    }
}

/// The state after a run of events.
pub open spec fn run(s: SessionState, es: Seq<SessionEvent>) -> SessionState
    decreases es.len(),
{
    if es.len() == 0 {
        s
    } else {
        run(next_state(s, es[0]), es.drop_first())
    }
}

/// The kinds of the actions taken along a run of events.
pub open spec fn run_kinds(s: SessionState, es: Seq<SessionEvent>) -> Seq<StepKind>
    decreases es.len(),
{
    if es.len() == 0 {
        Seq::empty()
    } else {
        seq![step_kind(s, es[0])] + run_kinds(next_state(s, es[0]), es.drop_first())
    }
}

/// Resolution failures are retried without bound: any number of failures,
/// each followed by the end of the wait, brings the machine back to a new
/// resolution each time, and the action after each failure is the wait.
pub proof fn lemma_unbounded_retry(es: Seq<SessionEvent>)
    requires
        es.len() % 2 == 0,
        forall|i: int| 0 <= i < es.len() && i % 2 == 0 ==> #[trigger] es[i] is ResolveFailed,
        forall|i: int| 0 <= i < es.len() && i % 2 == 1 ==> #[trigger] es[i] is DelayElapsed,
    ensures
        run(SessionState::Resolving, es) == SessionState::Resolving,
        run_kinds(SessionState::Resolving, es).len() == es.len(),
        forall|i: int| 0 <= i < es.len() ==> #[trigger] run_kinds(SessionState::Resolving, es)[i]
            == if i % 2 == 0 { StepKind::Wait } else { StepKind::Resolve },
    decreases es.len(),
{
    if es.len() > 0 {
        let rest = es.drop_first().drop_first();
        assert forall|i: int| 0 <= i < rest.len() && i % 2 == 0 implies #[trigger] rest[i] is ResolveFailed by {
            assert(rest[i] == es[i + 2]);
        }
        assert forall|i: int| 0 <= i < rest.len() && i % 2 == 1 implies #[trigger] rest[i] is DelayElapsed by {
            assert(rest[i] == es[i + 2]);
        }
        lemma_unbounded_retry(rest);
        assert(es[0] is ResolveFailed);
        assert(es[1] is DelayElapsed);
        assert(es.drop_first()[0] == es[1]);
        assert(es.drop_first().drop_first() == rest);
        assert(next_state(SessionState::Resolving, es[0]) == SessionState::Terminated);
        assert(next_state(SessionState::Terminated, es.drop_first()[0]) == SessionState::Resolving);
        assert(run(SessionState::Terminated, es.drop_first()) == run(SessionState::Resolving, rest));
        assert(run(SessionState::Resolving, es) == run(SessionState::Terminated, es.drop_first()));
        let k = run_kinds(SessionState::Resolving, es);
        let k1 = run_kinds(SessionState::Terminated, es.drop_first());
        let kr = run_kinds(SessionState::Resolving, rest);
        assert(k1 == seq![StepKind::Resolve] + kr);
        assert(k == seq![StepKind::Wait] + k1);
        assert forall|i: int| 0 <= i < es.len() implies #[trigger] k[i]
            == if i % 2 == 0 { StepKind::Wait } else { StepKind::Resolve } by {
            if i >= 2 {
                assert(k[i] == kr[i - 2]);
            }
        }
    }
}

/// No state is final: from each one some event moves the machine on.
pub proof fn lemma_no_final_state(s: SessionState)
    ensures
        exists|e: SessionEvent| next_state(s, e) != s,
{
    match s {
        SessionState::Idle => assert(next_state(s, SessionEvent::Start) != s),
        SessionState::Resolving => assert(next_state(s, SessionEvent::ConnectFailed) != s),
        SessionState::Connected => assert(next_state(s, SessionEvent::Ended(Termination::Closed)) != s),
        SessionState::Terminated => assert(next_state(s, SessionEvent::DelayElapsed) != s),
    }
}

/// A session that has gone the timeout without an acknowledgment is torn
/// down at its next frame that is not one, and a new attempt follows the
/// fixed wait.
pub proof fn lemma_staleness_tears_down(l: LivenessState, f: InboundFrame, now_ms: u64)
    requires
        l.stale_at(now_ms),
        !(f is Pong),
    ensures
        termination_of(l, f, now_ms) is Some,
        !(f is Close) && !(f is Error) ==> termination_of(l, f, now_ms) == Some(Termination::Stale),
        next_state(SessionState::Connected, SessionEvent::Ended(Termination::Stale)) == SessionState::Terminated,
        step_kind(SessionState::Connected, SessionEvent::Ended(Termination::Stale)) == StepKind::Wait,
        next_state(SessionState::Terminated, SessionEvent::DelayElapsed) == SessionState::Resolving,
        step_kind(SessionState::Terminated, SessionEvent::DelayElapsed) == StepKind::Resolve,
{
    assert(refreshed(l, f, now_ms) == l);
}

} // verus!

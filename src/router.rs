//! Decisions of a session's reader on each inbound frame: keepalive refresh,
//! staleness, teardown, and dispatch of command requests.
use vstd::prelude::*;
use crate::envelope::{
    build_response, command_of, decode_request, fresh_id, has_command, json_accepts,
    request_id_of, CommandRequest, DecodeError, Envelope,
};
use crate::executor::CommandResult;
use crate::liveness::LivenessState;

verus! {

/// One frame read from the transport.
pub enum InboundFrame {
    Text(String),
    Binary,
    Ping,
    Pong,
    Close,
    Error,
}

/// Why a session ends.
#[derive(Clone, Copy, Debug, PartialEq, Eq)]
pub enum Termination {
    /// The peer closed the connection.
    Closed,
    /// Reading from the transport failed.
    TransportError,
    /// No heartbeat acknowledgment arrived within the timeout.
    Stale,
    /// A heartbeat could not be enqueued.
    PingFailed,
    /// The writer of the session stopped.
    WriterStopped,
}

/// What the session's other activities report to its reader.
pub enum ActivityEvent {
    /// A heartbeat period passed; says whether its ping was enqueued.
    Tick { ping_enqueued: bool },
    /// The writer stopped: the transport refused a write, or it ended.
    WriterStopped,
}

/// Handles a report of the heartbeat or of the writer at `now_ms`: a stale
/// session ends, as does one whose ping could not be enqueued or whose writer
/// stopped; a silent connection is thus found stale at the next tick.
pub fn on_activity(liveness: &LivenessState, event: &ActivityEvent, now_ms: u64) -> (r: Option<Termination>)
    ensures
        match *event {
            ActivityEvent::Tick { ping_enqueued } => if liveness.stale_at(now_ms) {
                r == Some(Termination::Stale)
            } else if !ping_enqueued {
                r == Some(Termination::PingFailed)
            } else {
                r is None
            },
            ActivityEvent::WriterStopped => r == Some(Termination::WriterStopped),
        },
{
    match event {
        ActivityEvent::Tick { ping_enqueued } => {
            if liveness.is_stale(now_ms) {
                Some(Termination::Stale)
            } else if !*ping_enqueued {
                Some(Termination::PingFailed)
            } else {
                None
            }
        },
        ActivityEvent::WriterStopped => Some(Termination::WriterStopped),
    }
}

/// What the reader does after a frame.
pub enum FrameOutcome {
    /// Read the next frame.
    Continue,
    /// The text was not JSON: drop it and read the next frame.
    Malformed,
    /// Run the command, enqueue the response, check staleness, read on.
    Execute(CommandRequest),
    /// Tear the session down.
    Terminate(Termination),
}

/// The liveness state after a frame at `now_ms` was seen.
pub open spec fn refreshed(l: LivenessState, f: InboundFrame, now_ms: u64) -> LivenessState {
    match f {
        InboundFrame::Pong => LivenessState {
            last_pong_at_ms: if now_ms >= l.last_pong_at_ms { now_ms } else { l.last_pong_at_ms },
            ..l
        },
        _ => l,
    }
}

/// Whether a frame ends the session, and why.
pub open spec fn termination_of(l: LivenessState, f: InboundFrame, now_ms: u64) -> Option<Termination> {
    match f {
        InboundFrame::Close => Some(Termination::Closed),
        InboundFrame::Error => Some(Termination::TransportError),
        _ => if refreshed(l, f, now_ms).stale_at(now_ms) {
            Some(Termination::Stale)
        } else {
            None
        },
    }
}

/// Whether a frame is handed out for execution: a text frame, on a session
/// that it does not end, that is JSON and holds `message.data.command`.
pub open spec fn dispatches(l: LivenessState, f: InboundFrame, now_ms: u64) -> bool {
    termination_of(l, f, now_ms) is None && match f {
        InboundFrame::Text(s) => json_accepts(s@) && has_command(s@),
        _ => false,
    }
}

/// Handles one inbound frame seen at `now_ms`: an acknowledgment refreshes
/// liveness; a close or a transport error ends the session; any other frame
/// ends it when no acknowledgment came within the timeout; a text frame is
/// otherwise decoded, and a request in it is handed out for execution.
pub fn on_frame(liveness: &mut LivenessState, frame: &InboundFrame, now_ms: u64) -> (r: FrameOutcome)
    ensures
        *final(liveness) == refreshed(*old(liveness), *frame, now_ms),
        termination_of(*old(liveness), *frame, now_ms) matches Some(t) ==> r == FrameOutcome::Terminate(t),
        termination_of(*old(liveness), *frame, now_ms) is None ==> !(r is Terminate),
        r is Execute <==> dispatches(*old(liveness), *frame, now_ms),
        termination_of(*old(liveness), *frame, now_ms) is None ==> match *frame {
            InboundFrame::Text(s) => (r is Malformed <==> !json_accepts(s@))
                && (r is Execute <==> json_accepts(s@) && has_command(s@))
                && (r matches FrameOutcome::Execute(q) ==> q.command@ == command_of(s@)
                    && q.request_id@ == request_id_of(s@)),
            _ => r is Continue,
        },
{
    match frame {
        InboundFrame::Close => FrameOutcome::Terminate(Termination::Closed),
        InboundFrame::Error => FrameOutcome::Terminate(Termination::TransportError),
        InboundFrame::Pong => {
            liveness.record_pong(now_ms);
            if liveness.is_stale(now_ms) {
                FrameOutcome::Terminate(Termination::Stale)
            } else {
                FrameOutcome::Continue
            }
        },
        InboundFrame::Text(s) => {
            if liveness.is_stale(now_ms) {
                return FrameOutcome::Terminate(Termination::Stale);
            }
            match decode_request(s.as_str()) {
                Err(DecodeError::Malformed) => FrameOutcome::Malformed,
                Ok(None) => FrameOutcome::Continue,
                Ok(Some(request)) => FrameOutcome::Execute(request),
            }
        },
        _ => {
            if liveness.is_stale(now_ms) {
                FrameOutcome::Terminate(Termination::Stale)
            } else {
                FrameOutcome::Continue
            }
        },
    }
}

/// The check made after a request was served: the session ends when no
/// acknowledgment came within the timeout.
pub fn after_dispatch(liveness: &LivenessState, now_ms: u64) -> (r: Option<Termination>)
    ensures
        r is Some <==> liveness.stale_at(now_ms),
        r is Some ==> r == Some(Termination::Stale),
{
    if liveness.is_stale(now_ms) {
        Some(Termination::Stale)
    } else {
        None
    }
}

/// The response to `request` on channel `token`, under a new random
/// identifier, correlated with the request.
pub fn respond(token: &str, request: &CommandRequest, result: &CommandResult) -> (r: Envelope)
    ensures
        r.action@ == "message"@,
        r.channel_id@ == token@,
        r.client_type@ == "server"@,
        r.message.msg_type@ == "response"@,
        r.message.id@ != request.request_id@,
        r.message.correlation_id matches Some(c) && c@ == request.request_id@,
        r.message.data.output@ == result.output@,
        crate::envelope::same_text(result.error, r.message.data.error),
{
    let id = fresh_id();
    build_response(token, request, id.as_str(), result)
}

/// A frame that is not JSON neither ends a live session nor runs anything,
/// and leaves liveness as it was; a command frame after it, still within the
/// timeout, is handed out for execution: over the two, exactly one command runs.
pub proof fn lemma_malformed_then_command(l: LivenessState, bad: String, good: String, t1: u64, t2: u64)
    requires
        !json_accepts(bad@),
        json_accepts(good@),
        has_command(good@),
        !l.stale_at(t2),
        t1 <= t2,
    ensures
        termination_of(l, InboundFrame::Text(bad), t1) is None,
        !dispatches(l, InboundFrame::Text(bad), t1),
        refreshed(l, InboundFrame::Text(bad), t1) == l,
        dispatches(l, InboundFrame::Text(good), t2),
{
}

} // verus!

//! Stream and recording command decisions.
//!
//! Owns the duplicate-command guards and decides what a start/stop command
//! publishes before it is sent, and what its outcome publishes afterwards.
//! The shell sends the command to OBS and reports the outcome back.

use vstd::prelude::*;
use crate::controller::event::{
    fallback_status_after_failed_output_command, settled_status, AppEvent, OutputCommandFailureRecovery,
};
use crate::domain::output::{OutputRunState, OutputStatus};
use crate::text::owned;

verus! {

/// Which output a command is for.
#[derive(Debug, Clone, Copy, PartialEq, Eq, Structural)]
pub enum OutputKind {
    /// The stream output.
    Stream,
    /// The record output.
    Record,
}

/// Which outputs have a command in flight.
#[derive(Debug, Clone, Copy, PartialEq, Eq, Structural)]
pub struct OutputPending {
    /// A stream command is in flight.
    pub stream: bool,
    /// A record command is in flight.
    pub record: bool,
}

impl Default for OutputPending {
    fn default() -> (p: OutputPending)
        ensures
            !p.stream && !p.record,
    {
        OutputPending { stream: false, record: false }
    }
}

/// Claim the stream output for a command; refused while one is in flight.
pub fn mark_stream_pending(pending: &mut OutputPending) -> (claimed: bool)
    ensures
        claimed == !old(pending).stream,
        final(pending).stream,
        final(pending).record == old(pending).record,
{
    if pending.stream {
        return false;
    }
    pending.stream = true;
    true
}

/// Release the stream output.
pub fn clear_stream_pending(pending: &mut OutputPending)
    ensures
        !final(pending).stream,
        final(pending).record == old(pending).record,
{
    pending.stream = false;
}

/// Claim the record output for a command; refused while one is in flight.
pub fn mark_record_pending(pending: &mut OutputPending) -> (claimed: bool)
    ensures
        claimed == !old(pending).record,
        final(pending).record,
        final(pending).stream == old(pending).stream,
{
    if pending.record {
        return false;
    }
    pending.record = true;
    true
}

/// Release the record output.
pub fn clear_record_pending(pending: &mut OutputPending)
    ensures
        !final(pending).record,
        final(pending).stream == old(pending).stream,
{
    pending.record = false;
}

/// Status shown while a start (`active`) or stop command is in flight.
pub open spec fn pending_status_spec(active: bool) -> OutputStatus {
    OutputStatus {
        active: !active,
        state: if active { OutputRunState::Starting } else { OutputRunState::Stopping },
        detail: None,
    }
}

/// Status shown while a start (`active`) or stop command is in flight: the
/// output is still in its old activity, transitioning.
pub fn pending_status(active: bool) -> (s: OutputStatus)
    ensures
        s == pending_status_spec(active),
{
    OutputStatus {
        active: !active,
        state: if active { OutputRunState::Starting } else { OutputRunState::Stopping },
        detail: None,
    }
}

/// Error shown when a command is issued without an OBS session.
pub open spec fn not_connected_text() -> Seq<char> {
    "Not connected to OBS"@
}

/// What to do with a start/stop command.
#[derive(Debug)]
pub enum OutputCommandPlan {
    /// A command for this output is already in flight: drop this one.
    Ignored,
    /// There is no OBS session: publish this failure and send nothing.
    NotConnected(AppEvent),
    /// Publish `pending` and send the command; a failure falls back to
    /// `fallback`.
    Dispatch {
        /// Event announcing the pending status.
        pending: AppEvent,
        /// Status to return to if the command fails.
        fallback: OutputStatus,
    },
}

/// Whether `e` reports a failed command on `kind` with `message` and
/// `fallback`.
pub open spec fn is_failure_event(e: AppEvent, kind: OutputKind, message: Seq<char>, fallback: OutputStatus) -> bool {
    match kind {
        OutputKind::Stream => e matches AppEvent::StreamCommandFailed(f) && f.message_text() == message && f.fallback()
            == fallback,
        OutputKind::Record => e matches AppEvent::RecordCommandFailed(f) && f.message_text() == message && f.fallback()
            == fallback,
    }
}

/// Decide what a start (`active`) or stop command on `kind` does, claiming
/// the output when it is sent.
pub fn plan_output_command(pending: &mut OutputPending, kind: OutputKind, active: bool, connected: bool) -> (plan: OutputCommandPlan)
    ensures
        ({
            let busy = match kind {
                OutputKind::Stream => old(pending).stream,
                OutputKind::Record => old(pending).record,
            };
            if busy {
                plan is Ignored && *final(pending) == *old(pending)
            } else if !connected {
                &&& plan matches OutputCommandPlan::NotConnected(e) && is_failure_event(
                    e,
                    kind,
                    not_connected_text(),
                    OutputStatus::inactive_spec(),
                )
                &&& *final(pending) == *old(pending)
            } else {
                &&& plan matches OutputCommandPlan::Dispatch { pending: e, fallback } && fallback == settled_status(
                    pending_status_spec(active),
                ) && match kind {
                    OutputKind::Stream => e matches AppEvent::StreamCommandPending(s) && s == pending_status_spec(active),
                    OutputKind::Record => e matches AppEvent::RecordCommandPending(s) && s == pending_status_spec(active),
                }
                &&& *final(pending) == match kind {
                    OutputKind::Stream => OutputPending { stream: true, ..*old(pending) },
                    OutputKind::Record => OutputPending { record: true, ..*old(pending) },
                }
            }
        }),
{
    let claimed = match kind {
        OutputKind::Stream => mark_stream_pending(pending),
        OutputKind::Record => mark_record_pending(pending),
    };
    if !claimed {
        return OutputCommandPlan::Ignored;
    }
    if !connected {
        match kind {
            OutputKind::Stream => clear_stream_pending(pending),
            OutputKind::Record => clear_record_pending(pending),
        }
        let failure = OutputCommandFailureRecovery::with_failed_command_fallback_status(
            owned("Not connected to OBS"),
            OutputStatus::inactive(),
        );
        return OutputCommandPlan::NotConnected(
            match kind {
                OutputKind::Stream => AppEvent::StreamCommandFailed(failure),
                OutputKind::Record => AppEvent::RecordCommandFailed(failure),
            },
        );
    }
    let status = pending_status(active);
    let fallback = fallback_status_after_failed_output_command(&status);
    let event = match kind {
        OutputKind::Stream => AppEvent::StreamCommandPending(status),
        OutputKind::Record => AppEvent::RecordCommandPending(status),
    };
    OutputCommandPlan::Dispatch { pending: event, fallback }
}

/// Events published once a command on `kind` came back: success, then for
/// a stopped recording the file it wrote; or the failure with its fallback
/// status. The output's status is refreshed from OBS afterwards either way.
pub fn output_command_finished(kind: OutputKind, outcome: Result<Option<String>, String>, fallback: OutputStatus) -> (events: Vec<AppEvent>)
    ensures
        match outcome {
            Ok(path) => {
                &&& events@.len() >= 1
                &&& match kind {
                    OutputKind::Stream => events@[0] is StreamCommandSucceeded && events@.len() == 1,
                    OutputKind::Record => events@[0] is RecordCommandSucceeded && match path {
                        Some(p) => events@.len() == 2 && (events@[1] matches AppEvent::RecordStatusUpdated(s) && s
                            == (OutputStatus { active: false, state: OutputRunState::Inactive, detail: Some(p) })),
                        None => events@.len() == 1,
                    },
                }
            },
            Err(message) => events@.len() == 1 && is_failure_event(events@[0], kind, message@, settled_status(fallback)),
        },
{
    let mut events: Vec<AppEvent> = Vec::new();
    match outcome {
        Ok(path) => match kind {
            OutputKind::Stream => events.push(AppEvent::StreamCommandSucceeded),
            OutputKind::Record => {
                events.push(AppEvent::RecordCommandSucceeded);
                match path {
                    Some(p) => events.push(
                        AppEvent::RecordStatusUpdated(
                            OutputStatus { active: false, state: OutputRunState::Inactive, detail: Some(p) },
                        ),
                    ),
                    None => {},
                }
            },
        },
        Err(message) => {
            let failure = OutputCommandFailureRecovery::with_failed_command_fallback_status(message, fallback);
            match kind {
                OutputKind::Stream => events.push(AppEvent::StreamCommandFailed(failure)),
                OutputKind::Record => events.push(AppEvent::RecordCommandFailed(failure)),
            }
        },
    }
    events
}

/// A failed start or stop never leaves its output in a transition: the
/// status it falls back to is stable, and a failed start leaves the output
/// inactive while a failed stop leaves it active.
pub proof fn lemma_failed_commands_settle(active: bool)
    ensures
        ({
            let fallback = settled_status(pending_status_spec(active));
            &&& fallback.state != OutputRunState::Starting
            &&& fallback.state != OutputRunState::Stopping
            &&& fallback.state != OutputRunState::Reconnecting
            &&& fallback.active == !active
            &&& fallback.state == if active { OutputRunState::Inactive } else { OutputRunState::Active }
        }),
{
}

/// Outputs to stop before a session ends, stream first: each output whose
/// status could be read and reports it active. An output whose status could
/// not be read is left alone.
pub open spec fn outputs_to_stop_spec(stream: Option<OutputStatus>, record: Option<OutputStatus>) -> Seq<OutputKind> {
    let s = if stream matches Some(st) && st.active { seq![OutputKind::Stream] } else { Seq::empty() };
    let r = if record matches Some(rt) && rt.active { seq![OutputKind::Record] } else { Seq::empty() };
    s + r
}

/// Decide which outputs to stop before disconnecting, from what reading
/// their statuses gave (`None` where the read failed).
pub fn outputs_to_stop(stream: &Option<OutputStatus>, record: &Option<OutputStatus>) -> (r: Vec<OutputKind>)
    ensures
        r@ == outputs_to_stop_spec(*stream, *record),
{
    let mut r: Vec<OutputKind> = Vec::new();
    match stream {
        Some(st) => if st.active {
            r.push(OutputKind::Stream);
        },
        None => {},
    }
    match record {
        Some(rt) => if rt.active {
            r.push(OutputKind::Record);
        },
        None => {},
    }
    assert(r@ =~= outputs_to_stop_spec(*stream, *record));
    r
}

} // verus!

//! The interactive stream relay.
//!
//! Once the exec session is attached, the relay duplexes the local
//! terminal with the remote stream: local input bytes are forwarded
//! unaltered, remote output bytes are written out in the order received,
//! and every local resize event is forwarded at once as a resize control
//! message, never coalesced or dropped.  An interrupt signals the remote
//! process and the relay proceeds to teardown whether or not the remote
//! acknowledges; the session ends when the remote process exits or the
//! transport closes.

use vstd::prelude::*;

verus! {

/// Where the relay stands.
#[derive(Clone, Copy, Debug, PartialEq, Eq, Structural)]
pub enum RelayPhase {
    /// Both directions are live.
    Active,
    /// An interrupt was forwarded; remote output still drains, local
    /// input and resizes are no longer forwarded.
    Terminating,
    /// The session is over.
    Ended,
}

/// The relay's state: its phase and the remote exit code, once known.
pub struct StreamRelay {
    pub phase: RelayPhase,
    /// The remote process's exit code, where the daemon reported one.
    pub exit: Option<u8>,
}

/// One observation the surrounding I/O loop hands to the relay.
pub enum RelayEvent {
    /// Bytes read from the local terminal.
    LocalInput(Vec<u8>),
    /// Bytes the remote stream delivered for standard output.
    RemoteStdout(Vec<u8>),
    /// Bytes the remote stream delivered for standard error.
    RemoteStderr(Vec<u8>),
    /// The local terminal was resized to `(columns, rows)`.
    Resize(u16, u16),
    /// An external cancellation request.
    Interrupt,
    /// The remote process exited with this code.
    RemoteExited(u8),
    /// The transport reported stream closure.
    StreamClosed,
}

/// What the surrounding I/O loop must do next.
pub enum RelayAction {
    /// Write these bytes to the remote stream.
    ForwardInput(Vec<u8>),
    /// Write these bytes to local standard output.
    WriteStdout(Vec<u8>),
    /// Write these bytes to local standard error.
    WriteStderr(Vec<u8>),
    /// Send a resize control message for `(columns, rows)`.
    SendResize(u16, u16),
    /// Ask the remote process to terminate.
    SignalTerminate,
    /// Tear the session down; the relay is finished.
    Finish,
    /// Nothing to do.
    Idle,
}

/// One relay step: the state after an event and the action it demands.
pub open spec fn relay_step_model(s: StreamRelay, e: RelayEvent) -> (StreamRelay, RelayAction) {
    match s.phase {
        RelayPhase::Active => match e {
            RelayEvent::LocalInput(b) => (s, RelayAction::ForwardInput(b)),
            RelayEvent::RemoteStdout(b) => (s, RelayAction::WriteStdout(b)),
            RelayEvent::RemoteStderr(b) => (s, RelayAction::WriteStderr(b)),
            RelayEvent::Resize(w, h) => (s, RelayAction::SendResize(w, h)),
            RelayEvent::Interrupt => (
                StreamRelay { phase: RelayPhase::Terminating, exit: s.exit },
                RelayAction::SignalTerminate,
            ),
            RelayEvent::RemoteExited(c) => (
                StreamRelay { phase: RelayPhase::Ended, exit: Some(c) },
                RelayAction::Finish,
            ),
            RelayEvent::StreamClosed => (
                StreamRelay { phase: RelayPhase::Ended, exit: None },
                RelayAction::Finish,
            ),
        },
        RelayPhase::Terminating => match e {
            RelayEvent::RemoteStdout(b) => (s, RelayAction::WriteStdout(b)),
            RelayEvent::RemoteStderr(b) => (s, RelayAction::WriteStderr(b)),
            RelayEvent::RemoteExited(c) => (
                StreamRelay { phase: RelayPhase::Ended, exit: Some(c) },
                RelayAction::Finish,
            ),
            RelayEvent::StreamClosed => (
                StreamRelay { phase: RelayPhase::Ended, exit: s.exit },
                RelayAction::Finish,
            ),
            _ => (s, RelayAction::Idle),
        },
        RelayPhase::Ended => (s, RelayAction::Idle),
    }
}

impl StreamRelay {
    /// A fresh relay over a just-attached session.
    pub fn new() -> (r: Self)
        ensures
            r.phase == RelayPhase::Active,
            r.exit == Option::<u8>::None,
    {
        StreamRelay { phase: RelayPhase::Active, exit: None }
    }

    /// Consume one event, as `relay_step_model` states.
    pub fn step(&mut self, e: RelayEvent) -> (a: RelayAction)
        ensures
            ({
                let r = relay_step_model(*old(self), e);
                *final(self) == r.0 && a == r.1
            }),
    {
        match self.phase {
            RelayPhase::Active => match e {
                RelayEvent::LocalInput(b) => RelayAction::ForwardInput(b),
                RelayEvent::RemoteStdout(b) => RelayAction::WriteStdout(b),
                RelayEvent::RemoteStderr(b) => RelayAction::WriteStderr(b),
                RelayEvent::Resize(w, h) => RelayAction::SendResize(w, h),
                RelayEvent::Interrupt => {
                    self.phase = RelayPhase::Terminating;
                    RelayAction::SignalTerminate
                },
                RelayEvent::RemoteExited(c) => {
                    self.phase = RelayPhase::Ended;
                    self.exit = Some(c);
                    RelayAction::Finish
                },
                RelayEvent::StreamClosed => {
                    self.phase = RelayPhase::Ended;
                    self.exit = None;
                    RelayAction::Finish
                },
            },
            RelayPhase::Terminating => match e {
                RelayEvent::RemoteStdout(b) => RelayAction::WriteStdout(b),
                RelayEvent::RemoteStderr(b) => RelayAction::WriteStderr(b),
                RelayEvent::RemoteExited(c) => {
                    self.phase = RelayPhase::Ended;
                    self.exit = Some(c);
                    RelayAction::Finish
                },
                RelayEvent::StreamClosed => {
                    self.phase = RelayPhase::Ended;
                    RelayAction::Finish
                },
                _ => RelayAction::Idle,
            },
            RelayPhase::Ended => RelayAction::Idle,
        }
    }
}

/// The actions a relay performs on a row of events.
pub open spec fn relay_trace(s: StreamRelay, events: Seq<RelayEvent>) -> Seq<RelayAction>
    decreases events.len(),
{
    if events.len() == 0 {
        seq![]
    } else {
        let r = relay_step_model(s, events[0]);
        seq![r.1] + relay_trace(r.0, events.drop_first())
    }
}

/// The relay after a row of events.
pub open spec fn relay_run(s: StreamRelay, events: Seq<RelayEvent>) -> StreamRelay
    decreases events.len(),
{
    if events.len() == 0 {
        s
    } else {
        let r = relay_step_model(s, events[0]);
        relay_run(r.0, events.drop_first())
    }
}

/// An event that only moves payload: input, output, or a resize.
pub open spec fn is_payload_event(e: RelayEvent) -> bool {
    match e {
        RelayEvent::LocalInput(_) => true,
        RelayEvent::RemoteStdout(_) => true,
        RelayEvent::RemoteStderr(_) => true,
        RelayEvent::Resize(_, _) => true,
        _ => false,
    }
}

/// The resize dimensions issued locally, in order.
pub open spec fn resizes_of_events(events: Seq<RelayEvent>) -> Seq<(u16, u16)>
    decreases events.len(),
{
    if events.len() == 0 {
        seq![]
    } else {
        match events[0] {
            RelayEvent::Resize(w, h) => seq![(w, h)] + resizes_of_events(events.drop_first()),
            _ => resizes_of_events(events.drop_first()),
        }
    }
}

/// The resize control messages sent to the remote session, in order.
pub open spec fn resizes_of_actions(actions: Seq<RelayAction>) -> Seq<(u16, u16)>
    decreases actions.len(),
{
    if actions.len() == 0 {
        seq![]
    } else {
        match actions[0] {
            RelayAction::SendResize(w, h) => seq![(w, h)] + resizes_of_actions(
                actions.drop_first(),
            ),
            _ => resizes_of_actions(actions.drop_first()),
        }
    }
}

/// The local input payloads read, in order.
pub open spec fn inputs_of_events(events: Seq<RelayEvent>) -> Seq<Seq<u8>>
    decreases events.len(),
{
    if events.len() == 0 {
        seq![]
    } else {
        match events[0] {
            RelayEvent::LocalInput(b) => seq![b@] + inputs_of_events(events.drop_first()),
            _ => inputs_of_events(events.drop_first()),
        }
    }
}

/// The payloads forwarded to the remote stream, in order.
pub open spec fn inputs_of_actions(actions: Seq<RelayAction>) -> Seq<Seq<u8>>
    decreases actions.len(),
{
    if actions.len() == 0 {
        seq![]
    } else {
        match actions[0] {
            RelayAction::ForwardInput(b) => seq![b@] + inputs_of_actions(actions.drop_first()),
            _ => inputs_of_actions(actions.drop_first()),
        }
    }
}

/// Law: while the session is live, every local resize event is forwarded
/// to the remote session, in the same relative order and with the same
/// dimensions — none is coalesced away — and local input bytes are
/// forwarded unaltered, in order.
pub proof fn lemma_relay_forwards_in_order(s: StreamRelay, events: Seq<RelayEvent>)
    requires
        s.phase == RelayPhase::Active,
        forall|i: int| 0 <= i < events.len() ==> is_payload_event(#[trigger] events[i]),
    ensures
        resizes_of_actions(relay_trace(s, events)) == resizes_of_events(events),
        inputs_of_actions(relay_trace(s, events)) == inputs_of_events(events),
        relay_run(s, events).phase == RelayPhase::Active,
    decreases events.len(),
{
    if events.len() > 0 {
        let r = relay_step_model(s, events[0]);
        assert(is_payload_event(events[0]));
        assert(r.0 == s);
        assert forall|i: int| 0 <= i < events.drop_first().len() implies is_payload_event(
            #[trigger] events.drop_first()[i],
        ) by {
            assert(events.drop_first()[i] == events[i + 1]);
        }
        lemma_relay_forwards_in_order(s, events.drop_first());
        assert(relay_trace(s, events) == seq![r.1] + relay_trace(s, events.drop_first()));
        assert((seq![r.1] + relay_trace(s, events.drop_first())).drop_first() =~= relay_trace(
            s,
            events.drop_first(),
        ));
        match events[0] {
            RelayEvent::Resize(w, h) => {
                assert(resizes_of_actions(relay_trace(s, events)) =~= resizes_of_events(events));
                assert(inputs_of_actions(relay_trace(s, events)) =~= inputs_of_events(events));
            },
            _ => {
                assert(resizes_of_actions(relay_trace(s, events)) =~= resizes_of_events(events));
                assert(inputs_of_actions(relay_trace(s, events)) =~= inputs_of_events(events));
            },
        }
    }
}

} // verus!

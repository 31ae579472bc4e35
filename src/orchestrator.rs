//! One call as a state machine: the caller performs each action that a step
//! returns and hands back what came of it as the next event.
use vstd::prelude::*;

use crate::demux::{demultiplex, kinds_of, observation_of, observers_of, Observation};
use crate::message::{AssistConfig, InboundMessage};
use crate::session::{absorb, build_config, config_for, DeviceProfile, SessionState, SessionView};

verus! {

/// Why a call failed.
#[derive(Clone, Copy, Debug, PartialEq, Eq, Structural)]
pub enum CallError {
    /// The credential could not be fetched or refreshed.
    Auth,
    /// The connection to the service could not be established.
    Transport,
    /// The call broke off, ran out of time, or the service ended it with an error.
    Call,
    /// The inbound stream was interrupted after it had begun.
    Stream,
}

/// Where a call stands.
#[derive(Clone, Copy, Debug, PartialEq, Eq, Structural)]
pub enum CallPhase {
    Idle,
    ConfigBuilt,
    Streaming,
    Draining,
    Completed,
    Failed(CallError),
}

/// What came of the last action, or what the transport reports.
#[derive(Clone, Debug, PartialEq, Eq)]
pub enum CallEvent {
    /// A fresh credential is at hand for the call.
    CredentialReady,
    /// The credential provider failed.
    CredentialFailed,
    /// The connection could not be established.
    TransportFailed,
    /// The service accepted the call; the outbound sequence is being sent.
    CallOpened,
    /// The call failed after it was issued.
    CallFailed,
    /// The outbound sequence has been sent to its end.
    RequestsSent,
    /// One response message arrived.
    Received(InboundMessage),
    /// The inbound stream ended normally.
    StreamEnded,
    /// The inbound stream broke off.
    StreamInterrupted,
}

/// What the caller is to do next.
#[derive(Clone, Debug, PartialEq, Eq)]
pub enum CallAction {
    /// Open the call with a fresh credential and send this configuration, then
    /// the audio.
    OpenCall(AssistConfig),
    /// Hand each observation to its observer.
    Deliver(Vec<Observation>),
    /// The call is complete and its session state committed.
    Finished,
    /// The call failed; the committed session state is untouched.
    Abort(CallError),
    /// Nothing to do.
    Nothing,
}

/// The orchestrator's state as plain values.
pub struct CallView {
    pub phase: CallPhase,
    /// State committed by the last completed call.
    pub committed: SessionView,
    /// State gathered by the current call, committed only on completion.
    pub pending: SessionView,
}

pub open spec fn in_flight(phase: CallPhase) -> bool {
    phase == CallPhase::Streaming || phase == CallPhase::Draining
}

pub open spec fn failed(v: CallView, e: CallError) -> CallView {
    CallView { phase: CallPhase::Failed(e), ..v }
}

/// The state after event `e`.
pub open spec fn step_view(v: CallView, e: CallEvent) -> CallView {
    match v.phase {
        CallPhase::Idle => match e {
            CallEvent::CredentialReady => CallView {
                phase: CallPhase::ConfigBuilt,
                pending: v.committed,
                ..v
            },
            CallEvent::CredentialFailed => failed(v, CallError::Auth),
            _ => v,
        },
        CallPhase::ConfigBuilt => match e {
            CallEvent::CallOpened => CallView { phase: CallPhase::Streaming, ..v },
            CallEvent::TransportFailed => failed(v, CallError::Transport),
            CallEvent::CallFailed => failed(v, CallError::Call),
            _ => v,
        },
        CallPhase::Streaming | CallPhase::Draining => match e {
            CallEvent::RequestsSent => CallView { phase: CallPhase::Draining, ..v },
            CallEvent::Received(msg) => CallView { pending: absorb(v.pending, msg), ..v },
            CallEvent::StreamEnded => CallView {
                phase: CallPhase::Completed,
                committed: v.pending,
                ..v
            },
            CallEvent::StreamInterrupted => failed(v, CallError::Stream),
            CallEvent::CallFailed => failed(v, CallError::Call),
            _ => v,
        },
        CallPhase::Completed | CallPhase::Failed(_) => v,
    }
}

/// The state in which the next call starts.
pub open spec fn restart_view(v: CallView) -> CallView {
    CallView { phase: CallPhase::Idle, committed: v.committed, pending: v.committed }
}

/// Whether `a` is the action for event `e` in state `v`, for the device `p`.
pub open spec fn action_fits(v: CallView, p: DeviceProfile, e: CallEvent, a: CallAction) -> bool {
    let next = step_view(v, e);
    if v.phase == CallPhase::Idle && e is CredentialReady {
        a is OpenCall && config_for(a->OpenCall_0, v.committed, p)
    } else if in_flight(v.phase) && e is Received {
        &&& a is Deliver
        &&& kinds_of(a->Deliver_0@) == observers_of(e->Received_0)
        &&& forall|i: int|
            0 <= i < a->Deliver_0@.len() ==> observation_of(e->Received_0, #[trigger] a->Deliver_0@[i])
    } else if next.phase != v.phase && next.phase is Failed {
        a is Abort && a->Abort_0 == next.phase->Failed_0
    } else if next.phase != v.phase && next.phase == CallPhase::Completed {
        a is Finished
    } else {
        a is Nothing
    }
}

/// Takes one call from its start to completion or failure, and carries the
/// committed session state on to the next call.
pub struct CallOrchestrator {
    profile: DeviceProfile,
    committed: SessionState,
    pending: SessionState,
    phase: CallPhase,
}

impl CallOrchestrator {
    pub closed spec fn view(&self) -> CallView {
        CallView { phase: self.phase, committed: self.committed@, pending: self.pending@ }
    }

    pub closed spec fn spec_profile(&self) -> DeviceProfile {
        self.profile
    }

    /// An orchestrator for `profile`, idle, that starts from `state`.
    pub fn new(profile: DeviceProfile, state: SessionState) -> (r: CallOrchestrator)
        ensures
            r@ == (CallView { phase: CallPhase::Idle, committed: state@, pending: state@ }),
            r.spec_profile() == profile,
    {
        let pending = state.snapshot();
        CallOrchestrator { profile, committed: state, pending, phase: CallPhase::Idle }
    }

    pub fn phase(&self) -> (r: CallPhase)
        ensures
            r == self@.phase,
    {
        self.phase
    }

    /// The session state committed by the last completed call.
    pub fn session_state(&self) -> (r: &SessionState)
        ensures
            r@ == self@.committed,
    {
        &self.committed
    }

    /// Makes the orchestrator ready for the next call, keeping what was committed.
    pub fn restart(&mut self)
        ensures
            final(self)@ == restart_view(old(self)@),
            final(self).spec_profile() == old(self).spec_profile(),
    {
        self.phase = CallPhase::Idle;
        self.pending = self.committed.snapshot();
    }

    /// Takes one event and returns the action that follows from it.
    pub fn step(&mut self, event: CallEvent) -> (a: CallAction)
        ensures
            final(self)@ == step_view(old(self)@, event),
            final(self).spec_profile() == old(self).spec_profile(),
            action_fits(old(self)@, old(self).spec_profile(), event, a),
    {
        match self.phase {
            CallPhase::Idle => match event {
                CallEvent::CredentialReady => {
                    let config = build_config(&self.committed, &self.profile);
                    self.pending = self.committed.snapshot();
                    self.phase = CallPhase::ConfigBuilt;
                    CallAction::OpenCall(config)
                },
                CallEvent::CredentialFailed => {
                    self.phase = CallPhase::Failed(CallError::Auth);
                    CallAction::Abort(CallError::Auth)
                },
                _ => CallAction::Nothing,
            },
            CallPhase::ConfigBuilt => match event {
                CallEvent::CallOpened => {
                    self.phase = CallPhase::Streaming;
                    CallAction::Nothing
                },
                CallEvent::TransportFailed => {
                    self.phase = CallPhase::Failed(CallError::Transport);
                    CallAction::Abort(CallError::Transport)
                },
                CallEvent::CallFailed => {
                    self.phase = CallPhase::Failed(CallError::Call);
                    CallAction::Abort(CallError::Call)
                },
                _ => CallAction::Nothing,
            },
            CallPhase::Streaming | CallPhase::Draining => match event {
                CallEvent::RequestsSent => {
                    self.phase = CallPhase::Draining;
                    CallAction::Nothing
                },
                CallEvent::Received(msg) => {
                    self.pending.absorb_message(&msg);
                    CallAction::Deliver(demultiplex(msg))
                },
                CallEvent::StreamEnded => {
                    self.committed = self.pending.snapshot();
                    self.phase = CallPhase::Completed;
                    CallAction::Finished
                },
                CallEvent::StreamInterrupted => {
                    self.phase = CallPhase::Failed(CallError::Stream);
                    CallAction::Abort(CallError::Stream)
                },
                CallEvent::CallFailed => {
                    self.phase = CallPhase::Failed(CallError::Call);
                    CallAction::Abort(CallError::Call)
                },
                _ => CallAction::Nothing,
            },
            CallPhase::Completed | CallPhase::Failed(_) => CallAction::Nothing,
        }
    }
}

/// The committed session state changes only when a call completes, and a
/// failed call stays failed whatever comes after.
pub proof fn lemma_commit_only_at_completion(v: CallView, e: CallEvent)
    ensures
        step_view(v, e).committed != v.committed ==> step_view(v, e).phase == CallPhase::Completed,
        v.phase is Failed ==> step_view(v, e) == v,
{
}

/// When the credential provider fails on an idle call, the call goes straight
/// to failure with an authorization error, no call is opened, and the
/// committed session state is unchanged.
pub proof fn lemma_credential_failure(v: CallView, p: DeviceProfile, a: CallAction)
    requires
        v.phase == CallPhase::Idle,
        action_fits(v, p, CallEvent::CredentialFailed, a),
    ensures
        step_view(v, CallEvent::CredentialFailed).phase == CallPhase::Failed(CallError::Auth),
        step_view(v, CallEvent::CredentialFailed).committed == v.committed,
        a == CallAction::Abort(CallError::Auth),
        !(a is OpenCall),
{
}

/// When the inbound stream breaks off while the call drains, the call fails
/// with a stream error and the state committed by earlier calls is untouched.
pub proof fn lemma_stream_interruption(v: CallView, p: DeviceProfile, a: CallAction)
    requires
        v.phase == CallPhase::Draining,
        action_fits(v, p, CallEvent::StreamInterrupted, a),
    ensures
        step_view(v, CallEvent::StreamInterrupted).phase == CallPhase::Failed(CallError::Stream),
        step_view(v, CallEvent::StreamInterrupted).committed == v.committed,
        a == CallAction::Abort(CallError::Stream),
{
}

/// A continuation token that a call receives in its dialog state is carried
/// into the configuration of the next call, which then continues the
/// conversation rather than starting a new one.
pub proof fn lemma_token_carried_to_next_call(
    v: CallView,
    msg: InboundMessage,
    p: DeviceProfile,
    config: AssistConfig,
)
    requires
        in_flight(v.phase),
        msg.dialog_state_out is Some,
        msg.dialog_state_out->Some_0.conversation_state@.len() > 0,
        config_for(
            config,
            restart_view(
                step_view(step_view(v, CallEvent::Received(msg)), CallEvent::StreamEnded),
            ).committed,
            p,
        ),
    ensures
        step_view(step_view(v, CallEvent::Received(msg)), CallEvent::StreamEnded).phase
            == CallPhase::Completed,
        config.dialog_state_in.conversation_state@ == msg.dialog_state_out->Some_0.conversation_state@,
        !config.dialog_state_in.is_new_conversation,
{
}

/// The session state after taking in each of `msgs` in order.
pub open spec fn absorb_all(s: SessionView, msgs: Seq<InboundMessage>) -> SessionView
    decreases msgs.len(),
{
    if msgs.len() == 0 {
        s
    } else {
        absorb(absorb_all(s, msgs.drop_last()), msgs.last())
    }
}

/// The state after each of `msgs` arrives in turn.
pub open spec fn receive_all(v: CallView, msgs: Seq<InboundMessage>) -> CallView
    decreases msgs.len(),
{
    if msgs.len() == 0 {
        v
    } else {
        step_view(receive_all(v, msgs.drop_last()), CallEvent::Received(msgs.last()))
    }
}

/// A call that receives any run of response messages and then ends normally
/// completes, and commits exactly what those messages say in order, the last
/// continuation token and microphone directive seen winning.
pub proof fn lemma_completed_call_commits_responses(v: CallView, msgs: Seq<InboundMessage>)
    requires
        in_flight(v.phase),
    ensures
        in_flight(receive_all(v, msgs).phase),
        receive_all(v, msgs).committed == v.committed,
        step_view(receive_all(v, msgs), CallEvent::StreamEnded).phase == CallPhase::Completed,
        step_view(receive_all(v, msgs), CallEvent::StreamEnded).committed == absorb_all(
            v.pending,
            msgs,
        ),
    decreases msgs.len(),
{
    if msgs.len() > 0 {
        lemma_completed_call_commits_responses(v, msgs.drop_last());
    }
}

} // verus!

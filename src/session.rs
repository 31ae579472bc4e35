//! The state carried from call to call, the configuration built from it, and
//! the orchestrator that takes one call from start to its commit or failure.
use vstd::prelude::*;

use crate::demux::{microphone_directive, microphone_mode_of, MicrophoneMode};
use crate::message::{
    AssistConfig, AudioInConfig, AudioOutConfig, DeviceConfig, DialogStateIn, InboundMessage,
    LatLngE7,
};
use crate::sequencer::copy_range;

verus! {

/// What the session carries from one call to the next.
#[derive(Clone, Debug, PartialEq, Eq)]
pub struct SessionState {
    /// Last continuation token seen; empty before the first turn of a conversation.
    pub conversation_state: Vec<u8>,
    /// Last microphone directive seen.
    pub microphone_mode: MicrophoneMode,
}

/// The session state as plain values.
pub struct SessionView {
    pub token: Seq<u8>,
    pub microphone: MicrophoneMode,
}

impl SessionState {
    pub open spec fn view(&self) -> SessionView {
        SessionView { token: self.conversation_state@, microphone: self.microphone_mode }
    }

    /// A copy of this state.
    pub fn snapshot(&self) -> (r: SessionState)
        ensures
            r@ == self@,
    {
        let token = copy_range(self.conversation_state.as_slice(), 0, self.conversation_state.len());
        assert(token@ =~= self.conversation_state@);
        SessionState { conversation_state: token, microphone_mode: self.microphone_mode }
    }

    /// Takes in the dialog state of one response message.
    pub fn absorb_message(&mut self, msg: &InboundMessage)
        ensures
            final(self)@ == absorb(old(self)@, *msg),
    {
        match &msg.dialog_state_out {
            Some(d) => {
                if d.conversation_state.len() > 0 {
                    let token = copy_range(d.conversation_state.as_slice(), 0, d.conversation_state.len());
                    assert(token@ =~= d.conversation_state@);
                    self.conversation_state = token;
                }
                self.microphone_mode = microphone_directive(d.microphone_mode);
            },
            None => {},
        }
    }

    /// The state of a session that has made no call yet.
    pub fn new() -> (r: SessionState)
        ensures
            r@.token.len() == 0,
            r@.microphone == MicrophoneMode::NoDirective,
    {
        SessionState { conversation_state: Vec::new(), microphone_mode: MicrophoneMode::NoDirective }
    }
}

/// The session state after a response message: a non-empty continuation
/// token supersedes the one held, and a dialog state sets the microphone
/// directive.
pub open spec fn absorb(s: SessionView, msg: InboundMessage) -> SessionView {
    match msg.dialog_state_out {
        Some(d) => SessionView {
            token: if d.conversation_state@.len() > 0 {
                d.conversation_state@
            } else {
                s.token
            },
            microphone: microphone_mode_of(d.microphone_mode),
        },
        None => s,
    }
}

/// The static side of every call: device identity, locale and formats.
#[derive(Clone, Debug, PartialEq, Eq)]
pub struct DeviceProfile {
    pub device_id: String,
    pub device_model_id: String,
    pub language_code: String,
    pub location: Option<LatLngE7>,
    pub audio_in: AudioInConfig,
    pub audio_out: AudioOutConfig,
    pub return_debug_info: bool,
    pub screen_mode: i32,
}

/// Whether `c` is the configuration of a call made in session state `s` by
/// the device of `p`.
pub open spec fn config_for(c: AssistConfig, s: SessionView, p: DeviceProfile) -> bool {
    &&& c.audio_in_config == p.audio_in
    &&& c.audio_out_config == p.audio_out
    &&& c.dialog_state_in.conversation_state@ == s.token
    &&& c.dialog_state_in.is_new_conversation == (s.token.len() == 0)
    &&& c.dialog_state_in.language_code == p.language_code
    &&& c.dialog_state_in.device_location == p.location
    &&& c.device_config.device_id == p.device_id
    &&& c.device_config.device_model_id == p.device_model_id
    &&& c.return_debug_info == p.return_debug_info
    &&& c.screen_mode == p.screen_mode
}

/// Builds the configuration of the next call from the session state and the
/// device profile.
pub fn build_config(state: &SessionState, profile: &DeviceProfile) -> (r: AssistConfig)
    ensures
        config_for(r, state@, *profile),
{
    let token = copy_range(state.conversation_state.as_slice(), 0, state.conversation_state.len());
    let is_new = state.conversation_state.len() == 0;
    assert(token@ =~= state@.token);
    let r = AssistConfig {
        audio_in_config: profile.audio_in,
        audio_out_config: profile.audio_out,
        dialog_state_in: DialogStateIn {
            conversation_state: token,
            language_code: profile.language_code.clone(),
            device_location: profile.location,
            is_new_conversation: is_new,
        },
        device_config: DeviceConfig {
            device_id: profile.device_id.clone(),
            device_model_id: profile.device_model_id.clone(),
        },
        return_debug_info: profile.return_debug_info,
        screen_mode: profile.screen_mode,
    };
    r
}

} // verus!

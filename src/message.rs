//! Wire-level message shapes of the assist protocol, held as plain values.
use vstd::prelude::*;

verus! {

/// Format of the audio that the client sends.
#[derive(Clone, Copy, Debug, PartialEq, Eq)]
pub struct AudioInConfig {
    pub encoding: i32,
    pub sample_rate_hertz: i32,
}

/// Format of the audio that the service sends back.
#[derive(Clone, Copy, Debug, PartialEq, Eq)]
pub struct AudioOutConfig {
    pub encoding: i32,
    pub sample_rate_hertz: i32,
    pub volume_percentage: i32,
}

/// A point on the earth, each coordinate in units of 10^-7 degree.
#[derive(Clone, Copy, Debug, PartialEq, Eq)]
pub struct LatLngE7 {
    pub latitude_e7: i32,
    pub longitude_e7: i32,
}

/// Dialog state that the client hands to the service at the start of a call.
#[derive(Clone, Debug, PartialEq, Eq)]
pub struct DialogStateIn {
    /// Continuation token of the conversation; empty on a first call.
    pub conversation_state: Vec<u8>,
    pub language_code: String,
    pub device_location: Option<LatLngE7>,
    pub is_new_conversation: bool,
}

/// Identity of the device that makes the call.
#[derive(Clone, Debug, PartialEq, Eq)]
pub struct DeviceConfig {
    pub device_id: String,
    pub device_model_id: String,
}

/// The per-call configuration, sent as the first message of every call.
#[derive(Clone, Debug, PartialEq, Eq)]
pub struct AssistConfig {
    pub audio_in_config: AudioInConfig,
    pub audio_out_config: AudioOutConfig,
    pub dialog_state_in: DialogStateIn,
    pub device_config: DeviceConfig,
    pub return_debug_info: bool,
    pub screen_mode: i32,
}

/// One message of the outbound stream.
#[derive(Clone, Debug, PartialEq, Eq)]
pub enum OutboundMessage {
    Configuration(AssistConfig),
    AudioChunk(Vec<u8>),
}

/// A partial transcript; `stability_bits` holds the bits of the 32-bit
/// floating-point stability score, passed through untouched.
#[derive(Clone, Debug, PartialEq, Eq)]
pub struct SpeechResult {
    pub transcript: String,
    pub stability_bits: u32,
}

/// Visual output that the service renders for a screen.
#[derive(Clone, Debug, PartialEq, Eq)]
pub struct ScreenOut {
    pub format: i32,
    pub data: Vec<u8>,
}

/// Dialog state that the service returns.
#[derive(Clone, Debug, PartialEq, Eq)]
pub struct DialogStateOut {
    pub supplemental_display_text: String,
    pub conversation_state: Vec<u8>,
    pub microphone_mode: i32,
    pub volume_percentage: i32,
}

/// One message of the inbound stream: every field is independent of the others.
#[derive(Clone, Debug, PartialEq, Eq)]
pub struct InboundMessage {
    pub event_type: i32,
    pub speech_results: Vec<SpeechResult>,
    pub audio_out: Option<Vec<u8>>,
    pub screen_out: Option<ScreenOut>,
    pub device_action: Option<String>,
    pub dialog_state_out: Option<DialogStateOut>,
    pub debug_info: Option<String>,
}

/// Event code that marks the end of the user's utterance.
pub const END_OF_UTTERANCE: i32 = 1;

/// Microphone-mode code: close the microphone.
pub const CLOSE_MICROPHONE: i32 = 1;

/// Microphone-mode code: keep the microphone open for a follow-on turn.
pub const DIALOG_FOLLOW_ON: i32 = 2;

} // verus!

//! The inbound side of a call: each response message is split into one
//! observation per field that it carries, each for its own observer.
use vstd::prelude::*;

use crate::message::{
    DialogStateOut, InboundMessage, ScreenOut, SpeechResult, CLOSE_MICROPHONE, DIALOG_FOLLOW_ON,
    END_OF_UTTERANCE,
};

verus! {

/// What the service asks of the microphone after its turn.
#[derive(Clone, Copy, Debug, PartialEq, Eq, Structural)]
pub enum MicrophoneMode {
    CloseMicrophone,
    DialogFollowOn,
    NoDirective,
}

pub open spec fn microphone_mode_of(code: i32) -> MicrophoneMode {
    if code == CLOSE_MICROPHONE {
        MicrophoneMode::CloseMicrophone
    } else if code == DIALOG_FOLLOW_ON {
        MicrophoneMode::DialogFollowOn
    } else {
        MicrophoneMode::NoDirective
    }
}

/// Maps a microphone-mode code of the wire to its directive: 1 closes the
/// microphone, 2 keeps it open for a follow-on turn, anything else is no directive.
pub fn microphone_directive(code: i32) -> (r: MicrophoneMode)
    ensures
        r == microphone_mode_of(code),
        code == 1 ==> r == MicrophoneMode::CloseMicrophone,
        code == 2 ==> r == MicrophoneMode::DialogFollowOn,
        code != 1 && code != 2 ==> r == MicrophoneMode::NoDirective,
{
    if code == CLOSE_MICROPHONE {
        MicrophoneMode::CloseMicrophone
    } else if code == DIALOG_FOLLOW_ON {
        MicrophoneMode::DialogFollowOn
    } else {
        MicrophoneMode::NoDirective
    }
}

pub open spec fn volume_of(percentage: i32) -> Option<u32> {
    if percentage > 0 {
        Some(percentage as u32)
    } else {
        None
    }
}

/// A volume percentage above zero is a directive to change the output volume.
pub fn volume_directive(percentage: i32) -> (r: Option<u32>)
    ensures
        r == volume_of(percentage),
{
    if percentage > 0 {
        Some(percentage as u32)
    } else {
        None
    }
}

/// The dialog state of a response, with its codes read as directives.
#[derive(Clone, Debug, PartialEq, Eq)]
pub struct DialogUpdate {
    pub supplemental_display_text: String,
    pub conversation_state: Vec<u8>,
    pub microphone: MicrophoneMode,
    pub volume: Option<u32>,
}

/// What one observer is handed.
#[derive(Clone, Debug, PartialEq, Eq)]
pub enum Observation {
    EndOfUtterance,
    SpeechResults(Vec<SpeechResult>),
    AudioOut(Vec<u8>),
    ScreenOut(ScreenOut),
    DeviceAction(String),
    DialogState(DialogUpdate),
    DebugInfo(String),
}

/// The observers, one per field kind of a response.
#[derive(Clone, Copy, Debug, PartialEq, Eq, Structural)]
pub enum ObserverKind {
    EndOfUtterance,
    SpeechResults,
    AudioOut,
    ScreenOut,
    DeviceAction,
    DialogState,
    DebugInfo,
}

impl Observation {
    pub open spec fn kind(&self) -> ObserverKind {
        match self {
            Observation::EndOfUtterance => ObserverKind::EndOfUtterance,
            Observation::SpeechResults(_) => ObserverKind::SpeechResults,
            Observation::AudioOut(_) => ObserverKind::AudioOut,
            Observation::ScreenOut(_) => ObserverKind::ScreenOut,
            Observation::DeviceAction(_) => ObserverKind::DeviceAction,
            Observation::DialogState(_) => ObserverKind::DialogState,
            Observation::DebugInfo(_) => ObserverKind::DebugInfo,
        }
    }

    /// The observer that this observation is for.
    pub fn observer(&self) -> (r: ObserverKind)
        ensures
            r == self.kind(),
    {
        match self {
            Observation::EndOfUtterance => ObserverKind::EndOfUtterance,
            Observation::SpeechResults(_) => ObserverKind::SpeechResults,
            Observation::AudioOut(_) => ObserverKind::AudioOut,
            Observation::ScreenOut(_) => ObserverKind::ScreenOut,
            Observation::DeviceAction(_) => ObserverKind::DeviceAction,
            Observation::DialogState(_) => ObserverKind::DialogState,
            Observation::DebugInfo(_) => ObserverKind::DebugInfo,
        }
    }
}

/// Whether `msg` carries the field that observer `k` is for.
pub open spec fn carries(msg: InboundMessage, k: ObserverKind) -> bool {
    match k {
        ObserverKind::EndOfUtterance => msg.event_type == END_OF_UTTERANCE,
        ObserverKind::SpeechResults => msg.speech_results@.len() > 0,
        ObserverKind::AudioOut => msg.audio_out.is_some(),
        ObserverKind::ScreenOut => msg.screen_out.is_some(),
        ObserverKind::DeviceAction => msg.device_action.is_some(),
        ObserverKind::DialogState => msg.dialog_state_out.is_some(),
        ObserverKind::DebugInfo => msg.debug_info.is_some(),
    }
}

pub open spec fn when(b: bool, k: ObserverKind) -> Seq<ObserverKind> {
    if b {
        seq![k]
    } else {
        Seq::empty()
    }
}

/// The observers that `msg` reaches, in the order in which they are handed
/// their observations.
pub open spec fn observers_of(msg: InboundMessage) -> Seq<ObserverKind> {
    when(carries(msg, ObserverKind::EndOfUtterance), ObserverKind::EndOfUtterance) + when(
        carries(msg, ObserverKind::SpeechResults),
        ObserverKind::SpeechResults,
    ) + when(carries(msg, ObserverKind::AudioOut), ObserverKind::AudioOut) + when(
        carries(msg, ObserverKind::ScreenOut),
        ObserverKind::ScreenOut,
    ) + when(carries(msg, ObserverKind::DeviceAction), ObserverKind::DeviceAction) + when(
        carries(msg, ObserverKind::DialogState),
        ObserverKind::DialogState,
    ) + when(carries(msg, ObserverKind::DebugInfo), ObserverKind::DebugInfo)
}

pub open spec fn kinds_of(obs: Seq<Observation>) -> Seq<ObserverKind> {
    obs.map_values(|o: Observation| o.kind())
}

/// The dialog update that a dialog state of the wire becomes.
pub open spec fn update_of(d: DialogStateOut) -> DialogUpdate {
    DialogUpdate {
        supplemental_display_text: d.supplemental_display_text,
        conversation_state: d.conversation_state,
        microphone: microphone_mode_of(d.microphone_mode),
        volume: volume_of(d.volume_percentage),
    }
}

/// Whether `o` hands its observer exactly the field of `msg` that it is for.
pub open spec fn observation_of(msg: InboundMessage, o: Observation) -> bool {
    match o {
        Observation::EndOfUtterance => true,
        Observation::SpeechResults(v) => v == msg.speech_results,
        Observation::AudioOut(b) => msg.audio_out == Some(b),
        Observation::ScreenOut(s) => msg.screen_out == Some(s),
        Observation::DeviceAction(a) => msg.device_action == Some(a),
        Observation::DialogState(u) => msg.dialog_state_out.is_some() && u == update_of(
            msg.dialog_state_out->Some_0,
        ),
        Observation::DebugInfo(d) => msg.debug_info == Some(d),
    }
}

/// Splits one response message into its observations: one for each field
/// that it carries, each field looked at on its own.
#[verifier::rlimit(40)]
pub fn demultiplex(msg: InboundMessage) -> (r: Vec<Observation>)
    ensures
        kinds_of(r@) == observers_of(msg),
        forall|i: int| 0 <= i < r@.len() ==> observation_of(msg, #[trigger] r@[i]),
{
    let ghost m = msg;
    let InboundMessage {
        event_type,
        speech_results,
        audio_out,
        screen_out,
        device_action,
        dialog_state_out,
        debug_info,
    } = msg;
    let mut out: Vec<Observation> = Vec::new();
    let ghost mut expected: Seq<ObserverKind> = Seq::empty();
    if event_type == END_OF_UTTERANCE {
        out.push(Observation::EndOfUtterance);
    }
    proof {
        expected = when(carries(m, ObserverKind::EndOfUtterance), ObserverKind::EndOfUtterance);
        assert(kinds_of(out@) =~= expected);
        assert(forall|i: int| 0 <= i < out@.len() ==> observation_of(m, #[trigger] out@[i]));
    }
    if speech_results.len() > 0 {
        out.push(Observation::SpeechResults(speech_results));
    }
    proof {
        expected = expected + when(carries(m, ObserverKind::SpeechResults), ObserverKind::SpeechResults);
        assert(kinds_of(out@) =~= expected);
        assert(forall|i: int| 0 <= i < out@.len() ==> observation_of(m, #[trigger] out@[i]));
    }
    if let Some(bytes) = audio_out {
        out.push(Observation::AudioOut(bytes));
    }
    proof {
        expected = expected + when(carries(m, ObserverKind::AudioOut), ObserverKind::AudioOut);
        assert(kinds_of(out@) =~= expected);
        assert(forall|i: int| 0 <= i < out@.len() ==> observation_of(m, #[trigger] out@[i]));
    }
    if let Some(s) = screen_out {
        out.push(Observation::ScreenOut(s));
    }
    proof {
        expected = expected + when(carries(m, ObserverKind::ScreenOut), ObserverKind::ScreenOut);
        assert(kinds_of(out@) =~= expected);
        assert(forall|i: int| 0 <= i < out@.len() ==> observation_of(m, #[trigger] out@[i]));
    }
    if let Some(a) = device_action {
        out.push(Observation::DeviceAction(a));
    }
    proof {
        expected = expected + when(carries(m, ObserverKind::DeviceAction), ObserverKind::DeviceAction);
        assert(kinds_of(out@) =~= expected);
        assert(forall|i: int| 0 <= i < out@.len() ==> observation_of(m, #[trigger] out@[i]));
    }
    if let Some(d) = dialog_state_out {
        let DialogStateOut {
            supplemental_display_text,
            conversation_state,
            microphone_mode,
            volume_percentage,
        } = d;
        let update = DialogUpdate {
            supplemental_display_text,
            conversation_state,
            microphone: microphone_directive(microphone_mode),
            volume: volume_directive(volume_percentage),
        };
        out.push(Observation::DialogState(update));
    }
    proof {
        expected = expected + when(carries(m, ObserverKind::DialogState), ObserverKind::DialogState);
        assert(kinds_of(out@) =~= expected);
        assert(forall|i: int| 0 <= i < out@.len() ==> observation_of(m, #[trigger] out@[i]));
    }
    if let Some(d) = debug_info {
        out.push(Observation::DebugInfo(d));
    }
    proof {
        expected = expected + when(carries(m, ObserverKind::DebugInfo), ObserverKind::DebugInfo);
        assert(kinds_of(out@) =~= expected);
        assert(forall|i: int| 0 <= i < out@.len() ==> observation_of(m, #[trigger] out@[i]));
    }
    out
}

/// How many times observer `k` occurs in `s`.
pub open spec fn count_of(s: Seq<ObserverKind>, k: ObserverKind) -> nat
    decreases s.len(),
{
    if s.len() == 0 {
        0
    } else {
        count_of(s.drop_last(), k) + if s.last() == k {
            1nat
        } else {
            0nat
        }
    }
}

proof fn lemma_count_of_concat(a: Seq<ObserverKind>, b: Seq<ObserverKind>, k: ObserverKind)
    ensures
        count_of(a + b, k) == count_of(a, k) + count_of(b, k),
    decreases b.len(),
{
    if b.len() == 0 {
        assert(a + b =~= a);
    } else {
        assert((a + b).drop_last() =~= a + b.drop_last());
        lemma_count_of_concat(a, b.drop_last(), k);
    }
}

proof fn lemma_count_of_when(b: bool, j: ObserverKind, k: ObserverKind)
    ensures
        count_of(when(b, j), k) == if b && j == k {
            1nat
        } else {
            0nat
        },
{
    if b {
        assert(when(b, j).drop_last() =~= Seq::<ObserverKind>::empty());
        assert(count_of(Seq::<ObserverKind>::empty(), k) == 0);
        assert(when(b, j).last() == j);
    } else {
        assert(when(b, j).len() == 0);
    }
}

/// Fields are independent: for any response message, each observer is handed
/// exactly one observation when the message carries its field, whatever else
/// the message carries, and none when it does not.
pub proof fn lemma_one_observation_per_field(msg: InboundMessage, k: ObserverKind)
    ensures
        count_of(observers_of(msg), k) == if carries(msg, k) {
            1nat
        } else {
            0nat
        },
{
    let w0 = when(carries(msg, ObserverKind::EndOfUtterance), ObserverKind::EndOfUtterance);
    let w1 = when(carries(msg, ObserverKind::SpeechResults), ObserverKind::SpeechResults);
    let w2 = when(carries(msg, ObserverKind::AudioOut), ObserverKind::AudioOut);
    let w3 = when(carries(msg, ObserverKind::ScreenOut), ObserverKind::ScreenOut);
    let w4 = when(carries(msg, ObserverKind::DeviceAction), ObserverKind::DeviceAction);
    let w5 = when(carries(msg, ObserverKind::DialogState), ObserverKind::DialogState);
    let w6 = when(carries(msg, ObserverKind::DebugInfo), ObserverKind::DebugInfo);
    lemma_count_of_concat(w0, w1, k);
    lemma_count_of_concat(w0 + w1, w2, k);
    lemma_count_of_concat(w0 + w1 + w2, w3, k);
    lemma_count_of_concat(w0 + w1 + w2 + w3, w4, k);
    lemma_count_of_concat(w0 + w1 + w2 + w3 + w4, w5, k);
    lemma_count_of_concat(w0 + w1 + w2 + w3 + w4 + w5, w6, k);
    lemma_count_of_when(carries(msg, ObserverKind::EndOfUtterance), ObserverKind::EndOfUtterance, k);
    lemma_count_of_when(carries(msg, ObserverKind::SpeechResults), ObserverKind::SpeechResults, k);
    lemma_count_of_when(carries(msg, ObserverKind::AudioOut), ObserverKind::AudioOut, k);
    lemma_count_of_when(carries(msg, ObserverKind::ScreenOut), ObserverKind::ScreenOut, k);
    lemma_count_of_when(carries(msg, ObserverKind::DeviceAction), ObserverKind::DeviceAction, k);
    lemma_count_of_when(carries(msg, ObserverKind::DialogState), ObserverKind::DialogState, k);
    lemma_count_of_when(carries(msg, ObserverKind::DebugInfo), ObserverKind::DebugInfo, k);
}

} // verus!

use assistant::demux::{MicrophoneMode, Observation};
use assistant::message::{
    AudioInConfig, AudioOutConfig, DialogStateOut, InboundMessage, LatLngE7, SpeechResult,
};
use assistant::orchestrator::{CallAction, CallError, CallEvent, CallOrchestrator, CallPhase};
use assistant::session::{build_config, DeviceProfile, SessionState};

fn profile() -> DeviceProfile {
    DeviceProfile {
        device_id: "device-1".to_string(),
        device_model_id: "model-1".to_string(),
        language_code: "en-US".to_string(),
        location: Some(LatLngE7 { latitude_e7: 476_062_090, longitude_e7: -1_223_320_690 }),
        audio_in: AudioInConfig { encoding: 1, sample_rate_hertz: 16_000 },
        audio_out: AudioOutConfig { encoding: 1, sample_rate_hertz: 16_000, volume_percentage: 0 },
        return_debug_info: false,
        screen_mode: 0,
    }
}

fn dialog_message(token: Vec<u8>, mode: i32) -> InboundMessage {
    InboundMessage {
        event_type: 0,
        speech_results: vec![],
        audio_out: None,
        screen_out: None,
        device_action: None,
        dialog_state_out: Some(DialogStateOut {
            supplemental_display_text: String::new(),
            conversation_state: token,
            microphone_mode: mode,
            volume_percentage: 0,
        }),
        debug_info: None,
    }
}

fn open_call(orch: &mut CallOrchestrator) -> CallAction {
    let action = orch.step(CallEvent::CredentialReady);
    assert_eq!(orch.phase(), CallPhase::ConfigBuilt);
    assert_eq!(orch.step(CallEvent::CallOpened), CallAction::Nothing);
    assert_eq!(orch.phase(), CallPhase::Streaming);
    action
}

#[test]
fn first_call_configuration_starts_a_conversation() {
    let config = build_config(&SessionState::new(), &profile());
    assert!(config.dialog_state_in.conversation_state.is_empty());
    assert!(config.dialog_state_in.is_new_conversation);
    assert_eq!(config.dialog_state_in.language_code, "en-US");
    assert_eq!(config.device_config.device_id, "device-1");
    assert_eq!(config.device_config.device_model_id, "model-1");
    assert_eq!(config.audio_in_config, AudioInConfig { encoding: 1, sample_rate_hertz: 16_000 });
    assert_eq!(config.dialog_state_in.device_location, profile().location);
}

#[test]
fn token_of_one_call_is_sent_by_the_next() {
    let mut orch = CallOrchestrator::new(profile(), SessionState::new());
    match open_call(&mut orch) {
        CallAction::OpenCall(c) => assert!(c.dialog_state_in.is_new_conversation),
        other => panic!("unexpected action {:?}", other),
    }
    assert_eq!(orch.step(CallEvent::RequestsSent), CallAction::Nothing);
    assert_eq!(orch.phase(), CallPhase::Draining);
    let action = orch.step(CallEvent::Received(dialog_message(vec![0xAB, 0xCD], 2)));
    assert!(matches!(action, CallAction::Deliver(ref obs) if obs.len() == 1));
    assert!(orch.session_state().conversation_state.is_empty());
    assert_eq!(orch.step(CallEvent::StreamEnded), CallAction::Finished);
    assert_eq!(orch.phase(), CallPhase::Completed);
    assert_eq!(orch.session_state().conversation_state, vec![0xAB, 0xCD]);
    assert_eq!(orch.session_state().microphone_mode, MicrophoneMode::DialogFollowOn);

    orch.restart();
    assert_eq!(orch.phase(), CallPhase::Idle);
    match orch.step(CallEvent::CredentialReady) {
        CallAction::OpenCall(c) => {
            assert_eq!(c.dialog_state_in.conversation_state, vec![0xAB, 0xCD]);
            assert!(!c.dialog_state_in.is_new_conversation);
        }
        other => panic!("unexpected action {:?}", other),
    }
}

#[test]
fn later_token_supersedes_earlier_and_empty_keeps_it() {
    let mut orch = CallOrchestrator::new(profile(), SessionState::new());
    open_call(&mut orch);
    orch.step(CallEvent::Received(dialog_message(vec![1], 0)));
    orch.step(CallEvent::Received(dialog_message(vec![2, 2], 1)));
    orch.step(CallEvent::Received(dialog_message(vec![], 0)));
    orch.step(CallEvent::StreamEnded);
    assert_eq!(orch.session_state().conversation_state, vec![2, 2]);
    assert_eq!(orch.session_state().microphone_mode, MicrophoneMode::NoDirective);
}

#[test]
fn credential_failure_fails_before_any_call() {
    let start = SessionState { conversation_state: vec![4, 2], microphone_mode: MicrophoneMode::CloseMicrophone };
    let mut orch = CallOrchestrator::new(profile(), start.clone());
    assert_eq!(orch.step(CallEvent::CredentialFailed), CallAction::Abort(CallError::Auth));
    assert_eq!(orch.phase(), CallPhase::Failed(CallError::Auth));
    assert_eq!(orch.session_state(), &start);
    assert_eq!(orch.step(CallEvent::CallOpened), CallAction::Nothing);
    assert_eq!(orch.phase(), CallPhase::Failed(CallError::Auth));
}

#[test]
fn interrupted_stream_leaves_committed_state() {
    let mut orch = CallOrchestrator::new(profile(), SessionState::new());
    open_call(&mut orch);
    orch.step(CallEvent::Received(dialog_message(vec![9], 2)));
    orch.step(CallEvent::StreamEnded);
    orch.restart();
    open_call(&mut orch);
    orch.step(CallEvent::RequestsSent);
    orch.step(CallEvent::Received(dialog_message(vec![8, 8, 8], 1)));
    assert_eq!(orch.step(CallEvent::StreamInterrupted), CallAction::Abort(CallError::Stream));
    assert_eq!(orch.phase(), CallPhase::Failed(CallError::Stream));
    assert_eq!(orch.session_state().conversation_state, vec![9]);
    assert_eq!(orch.session_state().microphone_mode, MicrophoneMode::DialogFollowOn);
}

#[test]
fn transport_and_call_failures() {
    let mut orch = CallOrchestrator::new(profile(), SessionState::new());
    orch.step(CallEvent::CredentialReady);
    assert_eq!(orch.step(CallEvent::TransportFailed), CallAction::Abort(CallError::Transport));
    orch.restart();
    orch.step(CallEvent::CredentialReady);
    assert_eq!(orch.step(CallEvent::CallFailed), CallAction::Abort(CallError::Call));
    orch.restart();
    open_call(&mut orch);
    assert_eq!(orch.step(CallEvent::CallFailed), CallAction::Abort(CallError::Call));
    assert_eq!(orch.phase(), CallPhase::Failed(CallError::Call));
}

#[test]
fn responses_before_requests_end_are_delivered() {
    let mut orch = CallOrchestrator::new(profile(), SessionState::new());
    open_call(&mut orch);
    let mut msg = dialog_message(vec![], 0);
    msg.dialog_state_out = None;
    msg.speech_results = vec![SpeechResult { transcript: "what".to_string(), stability_bits: 0 }];
    let action = orch.step(CallEvent::Received(msg));
    assert_eq!(
        action,
        CallAction::Deliver(vec![Observation::SpeechResults(vec![SpeechResult {
            transcript: "what".to_string(),
            stability_bits: 0,
        }])])
    );
    assert_eq!(orch.phase(), CallPhase::Streaming);
    assert_eq!(orch.step(CallEvent::StreamEnded), CallAction::Finished);
}

#[test]
fn events_out_of_place_are_ignored() {
    let mut orch = CallOrchestrator::new(profile(), SessionState::new());
    assert_eq!(orch.step(CallEvent::StreamEnded), CallAction::Nothing);
    assert_eq!(orch.step(CallEvent::Received(dialog_message(vec![1], 1))), CallAction::Nothing);
    assert_eq!(orch.phase(), CallPhase::Idle);
    assert!(orch.session_state().conversation_state.is_empty());
}

#[test]
fn absorb_and_snapshot() {
    let mut state = SessionState::new();
    state.absorb_message(&dialog_message(vec![3, 1, 4], 2));
    assert_eq!(state.conversation_state, vec![3, 1, 4]);
    assert_eq!(state.microphone_mode, MicrophoneMode::DialogFollowOn);
    assert_eq!(state.snapshot(), state);
}

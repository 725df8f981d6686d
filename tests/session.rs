use whisper_dictation::error::DictationError;
use whisper_dictation::providers::{ProviderConfig, ProviderId, ProviderManager, TranscriptionResult};
use whisper_dictation::session::{
    resolve_call, shortcut_command, KeyState, Notice, Phase, RecordingSession, SessionCommand,
    SessionEvent, Work,
};
use whisper_dictation::settings::{AppSettings, InteractionMode};

fn recording() -> RecordingSession {
    let mut s = RecordingSession::new();
    assert_eq!(s.step(SessionEvent::StartRequested).work, Work::OpenStream);
    let step = s.step(SessionEvent::StreamOpened(Ok(())));
    assert!(matches!(step.notices[..], [Notice::RecordingStarted]));
    assert!(s.is_recording());
    s
}

#[test]
fn stop_without_samples_reports_no_audio_and_calls_no_backend() {
    let mut s = recording();
    assert_eq!(s.step(SessionEvent::StopRequested).work, Work::StopStream);
    assert!(!s.is_recording());
    let step = s.step(SessionEvent::Drained(0));
    assert_eq!(step.work, Work::Nothing);
    assert!(matches!(
        step.notices[..],
        [Notice::RecordingStopped, Notice::Error(DictationError::NoAudio)]
    ));
    assert_eq!(s.phase, Phase::Idle);
}

#[test]
fn full_session_delivers_and_pastes() {
    let mut s = recording();
    s.step(SessionEvent::StopRequested);
    let step = s.step(SessionEvent::Drained(480));
    assert_eq!(step.work, Work::Transcribe);
    assert!(matches!(step.notices[..], [Notice::RecordingStopped, Notice::Transcribing]));
    let result = TranscriptionResult {
        text: "hi".to_string(),
        provider: ProviderId::GoogleCloud,
        duration_ms: 12,
        language: None,
    };
    let step = s.step(SessionEvent::TranscriptionDone { outcome: Ok(result.clone()), auto_paste: true });
    assert_eq!(step.work, Work::Deliver { paste: true });
    match &step.notices[..] {
        [Notice::TranscriptionComplete(r)] => assert_eq!(*r, result),
        other => panic!("{:?}", other),
    }
    assert_eq!(s.phase, Phase::Idle);
}

#[test]
fn empty_text_is_not_pasted_and_failures_return_to_idle() {
    let mut s = recording();
    s.step(SessionEvent::StopRequested);
    s.step(SessionEvent::Drained(1));
    let empty = TranscriptionResult {
        text: String::new(),
        provider: ProviderId::OpenAiWhisper,
        duration_ms: 1,
        language: None,
    };
    let step = s.step(SessionEvent::TranscriptionDone { outcome: Ok(empty), auto_paste: true });
    assert_eq!(step.work, Work::Deliver { paste: false });

    let mut s = recording();
    s.step(SessionEvent::StopRequested);
    s.step(SessionEvent::Drained(1));
    let step = s.step(SessionEvent::TranscriptionDone {
        outcome: Err(DictationError::MissingCredential),
        auto_paste: true,
    });
    assert_eq!(step.work, Work::Nothing);
    assert!(matches!(step.notices[..], [Notice::Error(DictationError::MissingCredential)]));
    assert_eq!(s.phase, Phase::Idle);
}

#[test]
fn failed_stream_open_returns_to_idle() {
    let mut s = RecordingSession::new();
    s.step(SessionEvent::StartRequested);
    let step = s.step(SessionEvent::StreamOpened(Err(DictationError::Device("none".to_string()))));
    assert!(matches!(step.notices[..], [Notice::Error(DictationError::Device(_))]));
    assert_eq!(s.phase, Phase::Idle);
}

#[test]
fn unexpected_events_change_nothing() {
    let mut s = RecordingSession::new();
    let step = s.step(SessionEvent::StopRequested);
    assert_eq!(step.work, Work::Nothing);
    assert!(step.notices.is_empty());
    assert_eq!(s.phase, Phase::Idle);
    let mut s = recording();
    assert_eq!(s.step(SessionEvent::StartRequested).work, Work::Nothing);
    assert_eq!(s.phase, Phase::Recording);
}

#[test]
fn shortcut_commands() {
    let (ptt, toggle) = (InteractionMode::PushToTalk, InteractionMode::Toggle);
    let (down, up) = (KeyState::Pressed, KeyState::Released);
    assert_eq!(shortcut_command(ptt, down, false), Some(SessionCommand::Start));
    assert_eq!(shortcut_command(ptt, up, true), Some(SessionCommand::Stop));
    assert_eq!(shortcut_command(toggle, down, false), Some(SessionCommand::Start));
    assert_eq!(shortcut_command(toggle, down, true), Some(SessionCommand::Stop));
    assert_eq!(shortcut_command(toggle, up, true), None);
}

#[test]
fn switching_backend_after_resolution_leaves_the_call_alone() {
    let mut settings = AppSettings::default();
    settings.active_provider = ProviderId::GoogleCloud;
    let google = ProviderConfig {
        api_key: Some("k".to_string()),
        model: None,
        language: Some("en-US".to_string()),
        endpoint: None,
    };
    settings.provider_configs.push((ProviderId::GoogleCloud, google.clone()));
    let mut manager = ProviderManager::new(&settings);
    let call = resolve_call(&manager, &settings);
    manager.set_active(ProviderId::OpenAiWhisper);
    settings.provider_configs.clear();
    assert_eq!(call.provider, ProviderId::GoogleCloud);
    assert_eq!(manager.providers[call.index], ProviderId::GoogleCloud);
    assert_eq!(call.config, google);
    let next = resolve_call(&manager, &settings);
    assert_eq!(next.provider, ProviderId::OpenAiWhisper);
    assert_eq!(next.config, ProviderConfig::default());
}

#[test]
fn backend_transport_failure_is_reported() {
    let mut s = recording();
    s.step(SessionEvent::StopRequested);
    s.step(SessionEvent::Drained(3));
    let err = DictationError::Transport("HTTP 503".to_string());
    let step = s.step(SessionEvent::TranscriptionDone { outcome: Err(err.clone()), auto_paste: false });
    match &step.notices[..] {
        [Notice::Error(e)] => assert_eq!(*e, err),
        other => panic!("{:?}", other),
    }
    assert_eq!(step.work, Work::Nothing);
}

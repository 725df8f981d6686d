//! The recording session: `Idle -> Recording -> Draining -> Transcribing -> Idle`,
//! with every failure reported and the session back at `Idle`.
//!
//! The host opens and stops the capture stream, resamples, and calls the
//! backend; this module decides what happens next and what observers are told.
use vstd::prelude::*;
use vstd::string::*;
use crate::error::DictationError;
use crate::providers::{is_active_index, ProviderConfig, ProviderId, ProviderManager, TranscriptionResult};
use crate::settings::{config_for, AppSettings, InteractionMode};
use crate::providers::is_default_config;

verus! {

/// Whether the global shortcut went down or up.
#[derive(Clone, Copy, Debug, PartialEq, Eq, Structural)]
pub enum KeyState {
    Pressed,
    Released,
}

/// What a shortcut event asks of the session.
#[derive(Clone, Copy, Debug, PartialEq, Eq, Structural)]
pub enum SessionCommand {
    Start,
    Stop,
}

/// The command a shortcut event gives: push-to-talk starts on press and
/// stops on release; toggle starts or stops on press and ignores release.
pub fn shortcut_command(mode: InteractionMode, key: KeyState, recording: bool) -> (r: Option<
    SessionCommand,
>)
    ensures
        mode == InteractionMode::PushToTalk && key == KeyState::Pressed ==> r == Some(
            SessionCommand::Start,
        ),
        mode == InteractionMode::PushToTalk && key == KeyState::Released ==> r == Some(
            SessionCommand::Stop,
        ),
        mode == InteractionMode::Toggle && key == KeyState::Pressed ==> r == Some(
            if recording {
                SessionCommand::Stop
            } else {
                SessionCommand::Start
            },
        ),
        mode == InteractionMode::Toggle && key == KeyState::Released ==> r is None,
{
    match mode {
        InteractionMode::PushToTalk => match key {
            KeyState::Pressed => Some(SessionCommand::Start),
            KeyState::Released => Some(SessionCommand::Stop),
        },
        InteractionMode::Toggle => match key {
            KeyState::Pressed => {
                if recording {
                    Some(SessionCommand::Stop)
                } else {
                    Some(SessionCommand::Start)
                }
            },
            KeyState::Released => None,
        },
    }
}

/// Where the session stands.
#[derive(Clone, Copy, Debug, PartialEq, Eq, Structural)]
pub enum Phase {
    Idle,
    /// A capture stream is being opened.
    Starting,
    Recording,
    /// The stream is stopped and the captured samples are being taken out.
    Draining,
    /// A backend call is in flight.
    Transcribing,
}

/// What observers are told.
#[derive(Debug)]
pub enum Notice {
    RecordingStarted,
    RecordingStopped,
    Transcribing,
    TranscriptionComplete(TranscriptionResult),
    Error(DictationError),
}

/// What the host does next.
#[derive(Clone, Copy, Debug, PartialEq, Eq, Structural)]
pub enum Work {
    Nothing,
    /// Open the capture stream on the configured device.
    OpenStream,
    /// Stop the stream and take out the captured samples.
    StopStream,
    /// Resample, resolve the active backend and call it without holding any lock.
    Transcribe,
    /// Record the completed transcription in the history, and paste its text
    /// when `paste` is set.
    Deliver { paste: bool },
}

/// What the host reports.
#[derive(Debug)]
pub enum SessionEvent {
    StartRequested,
    StreamOpened(Result<(), DictationError>),
    StopRequested,
    /// The stream is stopped; this many samples were captured.
    Drained(usize),
    /// The backend call resolved. `auto_paste` is the setting at that moment.
    TranscriptionDone { outcome: Result<TranscriptionResult, DictationError>, auto_paste: bool },
}

/// The answer to one event.
#[derive(Debug)]
pub struct SessionStep {
    pub notices: Vec<Notice>,
    pub work: Work,
}

/// A recording session.
#[derive(Debug)]
pub struct RecordingSession {
    pub phase: Phase,
}

impl RecordingSession {
    pub fn new() -> (r: RecordingSession)
        ensures
            r.phase == Phase::Idle,
    {
        RecordingSession { phase: Phase::Idle }
    }

    /// Whether samples are being captured.
    pub fn is_recording(&self) -> (r: bool)
        ensures
            r == (self.phase == Phase::Recording),
    {
        self.phase == Phase::Recording
    }

    fn quiet() -> (r: SessionStep)
        ensures
            r.notices@.len() == 0,
            r.work == Work::Nothing,
    {
        SessionStep { notices: Vec::new(), work: Work::Nothing }
    }

    /// Advances the session on an event. An event the phase does not expect
    /// changes nothing and asks for nothing.
    pub fn step(&mut self, event: SessionEvent) -> (r: SessionStep)
        ensures
            old(self).phase == Phase::Idle && event is StartRequested ==> final(self).phase
                == Phase::Starting && r.work == Work::OpenStream && r.notices@.len() == 0,
            old(self).phase == Phase::Starting && event is StreamOpened ==> match event->StreamOpened_0 {
                Ok(()) => final(self).phase == Phase::Recording && r.work == Work::Nothing
                    && r.notices@.len() == 1 && r.notices@[0] is RecordingStarted,
                Err(e) => final(self).phase == Phase::Idle && r.work == Work::Nothing
                    && r.notices@.len() == 1 && r.notices@[0] == Notice::Error(e),
            },
            old(self).phase == Phase::Recording && event is StopRequested ==> final(self).phase
                == Phase::Draining && r.work == Work::StopStream && r.notices@.len() == 0,
            old(self).phase == Phase::Draining && event is Drained ==> if event->Drained_0 == 0 {
                final(self).phase == Phase::Idle && r.work == Work::Nothing && r.notices@.len() == 2
                    && r.notices@[0] is RecordingStopped && r.notices@[1] == Notice::Error(
                    DictationError::NoAudio,
                )
            } else {
                final(self).phase == Phase::Transcribing && r.work == Work::Transcribe
                    && r.notices@.len() == 2 && r.notices@[0] is RecordingStopped
                    && r.notices@[1] is Transcribing
            },
            old(self).phase == Phase::Transcribing && event is TranscriptionDone ==> final(self).phase
                == Phase::Idle && r.notices@.len() == 1 && match event->outcome {
                Ok(t) => r.notices@[0] == Notice::TranscriptionComplete(t) && r.work
                    == Work::Deliver { paste: event->auto_paste && t.text@.len() > 0 },
                Err(e) => r.notices@[0] == Notice::Error(e) && r.work == Work::Nothing,
            },
            !(old(self).phase == Phase::Idle && event is StartRequested) && !(old(self).phase
                == Phase::Starting && event is StreamOpened) && !(old(self).phase
                == Phase::Recording && event is StopRequested) && !(old(self).phase
                == Phase::Draining && event is Drained) && !(old(self).phase == Phase::Transcribing
                && event is TranscriptionDone) ==> final(self).phase == old(self).phase && r.work
                == Work::Nothing && r.notices@.len() == 0,
    {
        let phase = self.phase;
        match event {
            SessionEvent::StartRequested => {
                if phase == Phase::Idle {
                    self.phase = Phase::Starting;
                    SessionStep { notices: Vec::new(), work: Work::OpenStream }
                } else {
                    Self::quiet()
                }
            },
            SessionEvent::StreamOpened(opened) => {
                if phase == Phase::Starting {
                    match opened {
                        Ok(()) => {
                            self.phase = Phase::Recording;
                            SessionStep { notices: vec![Notice::RecordingStarted], work: Work::Nothing }
                        },
                        Err(e) => {
                            self.phase = Phase::Idle;
                            SessionStep { notices: vec![Notice::Error(e)], work: Work::Nothing }
                        },
                    }
                } else {
                    Self::quiet()
                }
            },
            SessionEvent::StopRequested => {
                if phase == Phase::Recording {
                    self.phase = Phase::Draining;
                    SessionStep { notices: Vec::new(), work: Work::StopStream }
                } else {
                    Self::quiet()
                }
            },
            SessionEvent::Drained(count) => {
                if phase == Phase::Draining {
                    if count == 0 {
                        self.phase = Phase::Idle;
                        SessionStep {
                            notices: vec![
                                Notice::RecordingStopped,
                                Notice::Error(DictationError::NoAudio),
                            ],
                            work: Work::Nothing,
                        }
                    } else {
                        self.phase = Phase::Transcribing;
                        SessionStep {
                            notices: vec![Notice::RecordingStopped, Notice::Transcribing],
                            work: Work::Transcribe,
                        }
                    }
                } else {
                    Self::quiet()
                }
            },
            SessionEvent::TranscriptionDone { outcome, auto_paste } => {
                if phase == Phase::Transcribing {
                    self.phase = Phase::Idle;
                    match outcome {
                        Ok(t) => {
                            let paste = auto_paste && t.text.as_str().unicode_len() > 0;
                            SessionStep {
                                notices: vec![Notice::TranscriptionComplete(t)],
                                work: Work::Deliver { paste },
                            }
                        },
                        Err(e) => SessionStep { notices: vec![Notice::Error(e)], work: Work::Nothing },
                    }
                } else {
                    Self::quiet()
                }
            },
        }
    }
}

/// A backend call resolved before the call: the backend's position in the
/// registry, its identity, and a copy of its configuration. It is carried
/// across the call while no lock is held.
#[derive(Debug)]
pub struct ResolvedCall {
    pub index: usize,
    pub provider: ProviderId,
    pub config: ProviderConfig,
}

/// `call` is what resolution gives for registry `m` and settings `s`.
pub open spec fn resolved_from(call: ResolvedCall, m: ProviderManager, s: AppSettings) -> bool {
    &&& is_active_index(m.providers@, m.active_provider, call.index as int)
    &&& call.provider == m.providers@[call.index as int]
    &&& config_for(s.provider_configs@, call.provider) is Some ==> call.config == config_for(
        s.provider_configs@,
        call.provider,
    )->Some_0
    &&& config_for(s.provider_configs@, call.provider) is None ==> is_default_config(call.config)
}

/// Resolves the active backend and snapshots its configuration.
pub fn resolve_call(manager: &ProviderManager, settings: &AppSettings) -> (r: ResolvedCall)
    requires
        manager.wf(),
    ensures
        resolved_from(r, *manager, *settings),
{
    let index = manager.get_active();
    let provider = manager.providers[index];
    let config = settings.get_provider_config(&provider);
    ResolvedCall { index, provider, config }
}

/// A backend switch after resolution leaves the resolved call alone: the
/// backend it names is still the one at its position in the registry, and
/// its configuration is the snapshot taken before the switch.
pub proof fn lemma_switch_after_resolution(
    call: ResolvedCall,
    before: ProviderManager,
    after: ProviderManager,
    settings: AppSettings,
)
    requires
        before.wf(),
        resolved_from(call, before, settings),
        after.providers@ == before.providers@,
    ensures
        0 <= call.index < after.providers@.len(),
        after.providers@[call.index as int] == call.provider,
        resolved_from(call, before, settings),
{
}

} // verus!

use whisper_dictation::bridge::{
    count_after_acquire, count_after_release, language_selector, make_language_key, CallAction,
    CallEvent, SamplingStrategy, Slot, Stage, TranscribeCall, E_NOINTERFACE, QUIET_FLAGS_MASK,
};
use whisper_dictation::error::{check_status, DictationError, ForeignOp};
use whisper_dictation::text::segments_text;

#[test]
fn language_key_packs_bytes_little_endian() {
    assert_eq!(make_language_key("en"), 0x6e65);
    assert_eq!(make_language_key("nl"), 0x6c6e);
    assert_eq!(make_language_key("yue"), 0x657579);
    assert_eq!(make_language_key("abcdef"), 0x64636261);
    assert_eq!(make_language_key(""), 0);
}

#[test]
fn automatic_language_keeps_library_default() {
    assert_eq!(language_selector(&None), None);
    assert_eq!(language_selector(&Some("auto".to_string())), None);
    assert_eq!(language_selector(&Some("de".to_string())), Some(0x6564));
}

#[test]
fn negative_status_is_an_inference_error() {
    assert_eq!(check_status(ForeignOp::RunFull, 0), Ok(()));
    assert_eq!(check_status(ForeignOp::RunFull, 1), Ok(()));
    assert_eq!(
        check_status(ForeignOp::RunFull, -2147467259),
        Err(DictationError::Inference { op: ForeignOp::RunFull, code: -2147467259 })
    );
}

#[test]
fn segment_texts_are_joined_and_trimmed() {
    let texts = vec![Some(" Hello".to_string()), None, Some(" world. \n".to_string())];
    assert_eq!(segments_text(&texts), "Hello world.");
    assert_eq!(segments_text(&vec![]), "");
    assert_eq!(segments_text(&vec![Some("\u{3000} x\u{a0}".to_string())]), "x");
}

#[test]
fn reference_counts() {
    assert_eq!(count_after_acquire(1), 2);
    assert_eq!(count_after_release(2), (1, false));
    assert_eq!(count_after_release(1), (0, true));
    assert_eq!(E_NOINTERFACE as u32, 0x80004002);
}

/// Drives a call against a scripted library and counts what it releases.
struct Mock {
    statuses: Vec<(Stage, i32)>,
    segments: u32,
    texts: Vec<Option<String>>,
    releases: [u32; 3],
    log: Vec<String>,
}

impl Mock {
    fn status_for(&self, stage: Stage) -> i32 {
        self.statuses.iter().find(|(s, _)| *s == stage).map(|(_, c)| *c).unwrap_or(0)
    }

    fn run(&mut self, samples: usize, language: Option<String>) -> Result<String, DictationError> {
        let mut call = TranscribeCall::new(samples, &language);
        let mut event = CallEvent::Begin;
        for _ in 0..100 {
            let action = call.step(event);
            let stage = call.stage;
            event = match action {
                CallAction::CreateContext
                | CallAction::DefaultParams { .. }
                | CallAction::GetResults => CallEvent::Status(self.status_for(stage)),
                CallAction::Run { language, cleared_flags } => {
                    assert_eq!(cleared_flags, QUIET_FLAGS_MASK);
                    self.log.push(format!("run {:?}", language));
                    CallEvent::Status(self.status_for(Stage::AwaitRun))
                }
                CallAction::GetSize => CallEvent::Size {
                    status: self.status_for(Stage::AwaitSize),
                    segments: self.segments,
                },
                CallAction::ReadSegments(n) => {
                    assert_eq!(n, self.segments);
                    CallEvent::Segments(self.texts.clone())
                }
                CallAction::Release(slot) => {
                    let i = match slot {
                        Slot::Audio => 0,
                        Slot::Result => 1,
                        Slot::Context => 2,
                    };
                    self.releases[i] += 1;
                    self.log.push(format!("release {:?}", slot));
                    CallEvent::Released
                }
                CallAction::Finish(outcome) => return outcome,
            };
        }
        panic!("call did not finish");
    }
}

fn mock(statuses: Vec<(Stage, i32)>, segments: u32) -> Mock {
    Mock {
        statuses,
        segments,
        texts: vec![Some(" Hello".to_string()), Some(" there ".to_string())],
        releases: [0; 3],
        log: Vec::new(),
    }
}

#[test]
fn successful_call_releases_each_object_once() {
    let mut m = mock(vec![], 2);
    assert_eq!(m.run(16000, Some("en".to_string())), Ok("Hello there".to_string()));
    assert_eq!(m.releases, [1, 1, 1]);
    assert_eq!(m.log[0], "run Some(28261)");
    assert_eq!(m.log[1], "release Audio");
}

#[test]
fn every_failure_path_releases_exactly_what_was_obtained() {
    let code = -2147024809;
    let cases = vec![
        (Stage::AwaitContext, ForeignOp::CreateContext, [0, 0, 0]),
        (Stage::AwaitParams, ForeignOp::DefaultParams, [0, 0, 1]),
        (Stage::AwaitRun, ForeignOp::RunFull, [1, 0, 1]),
        (Stage::AwaitResults, ForeignOp::GetResults, [1, 0, 1]),
        (Stage::AwaitSize, ForeignOp::GetSize, [1, 1, 1]),
    ];
    for (stage, op, released) in cases {
        let mut m = mock(vec![(stage, code)], 2);
        assert_eq!(m.run(100, None), Err(DictationError::Inference { op, code }));
        assert_eq!(m.releases, released, "failure at {:?}", stage);
    }
}

#[test]
fn no_segments_give_empty_text() {
    let mut m = mock(vec![], 0);
    assert_eq!(m.run(100, None), Ok(String::new()));
    assert_eq!(m.releases, [1, 1, 1]);
}

#[test]
fn audio_reference_is_dropped_right_after_the_run() {
    let mut m = mock(vec![(Stage::AwaitRun, -1)], 2);
    let _ = m.run(100, Some("auto".to_string()));
    assert_eq!(m.log[0], "run None");
    assert_eq!(m.log[1], "release Audio");
}

#[test]
fn empty_audio_never_reaches_the_library() {
    let mut m = mock(vec![], 2);
    assert_eq!(m.run(0, None), Err(DictationError::NoAudio));
    assert_eq!(m.releases, [0, 0, 0]);
    assert!(m.log.is_empty());
}

#[test]
fn unexpected_event_ends_the_call_releasing_what_is_held() {
    let mut call = TranscribeCall::new(10, &None);
    assert!(matches!(call.step(CallEvent::Begin), CallAction::CreateContext));
    assert!(matches!(call.step(CallEvent::Status(0)), CallAction::DefaultParams { strategy: SamplingStrategy::Greedy }));
    assert!(matches!(call.step(CallEvent::Released), CallAction::Release(Slot::Context)));
    match call.step(CallEvent::Released) {
        CallAction::Finish(r) => assert_eq!(r, Err(DictationError::OutOfOrder)),
        other => panic!("{:?}", other),
    }
    assert_eq!(call.stage, Stage::Finished);
}

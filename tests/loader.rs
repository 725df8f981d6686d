use whisper_dictation::error::{DictationError, ForeignOp, LoadFault};
use whisper_dictation::loader::{
    configured_path, decorated_export_name, plain_export_name, wide_path, LoadAction, LoadEvent, ModelLoad,
};

fn drive(events: &[LoadEvent]) -> Vec<LoadAction> {
    let mut load = ModelLoad::new();
    events.iter().map(|e| load.step(*e)).collect()
}

#[test]
fn cached_model_is_not_reloaded() {
    let actions = drive(&[LoadEvent::Begin { cached: true }]);
    assert!(matches!(actions[..], [LoadAction::AlreadyLoaded]));
}

#[test]
fn load_uses_decorated_export_when_plain_is_missing() {
    let actions = drive(&[
        LoadEvent::Begin { cached: false },
        LoadEvent::Succeeded(true),
        LoadEvent::Succeeded(true),
        LoadEvent::Succeeded(false),
        LoadEvent::Succeeded(true),
        LoadEvent::Succeeded(true),
        LoadEvent::Status(0),
    ]);
    assert!(matches!(
        actions[..],
        [
            LoadAction::CheckLibrary,
            LoadAction::OpenLibrary,
            LoadAction::FindPlainExport,
            LoadAction::FindDecoratedExport,
            LoadAction::CheckModel,
            LoadAction::LoadModel,
            LoadAction::Store
        ]
    ));
}

#[test]
fn each_load_failure_caches_nothing() {
    let fail = |events: &[LoadEvent]| match drive(events).pop() {
        Some(LoadAction::Fail(e)) => e,
        other => panic!("{:?}", other),
    };
    let begin = LoadEvent::Begin { cached: false };
    let ok = LoadEvent::Succeeded(true);
    let no = LoadEvent::Succeeded(false);
    assert_eq!(fail(&[begin, no]), DictationError::Load(LoadFault::LibraryMissing));
    assert_eq!(fail(&[begin, ok, no]), DictationError::Load(LoadFault::LibraryUnloadable));
    assert_eq!(fail(&[begin, ok, ok, no, no]), DictationError::Load(LoadFault::ExportMissing));
    assert_eq!(fail(&[begin, ok, ok, ok, no]), DictationError::Load(LoadFault::ModelMissing));
    assert_eq!(
        fail(&[begin, ok, ok, ok, ok, LoadEvent::Status(-5)]),
        DictationError::Inference { op: ForeignOp::LoadModel, code: -5 }
    );
    assert_eq!(fail(&[begin, LoadEvent::Status(0)]), DictationError::OutOfOrder);
}

#[test]
fn configured_paths_count_only_when_not_empty() {
    assert_eq!(configured_path(&None), None);
    assert_eq!(configured_path(&Some(String::new())), None);
    assert_eq!(configured_path(&Some("C:/w.dll".to_string())), Some("C:/w.dll".to_string()));
    assert_eq!(plain_export_name(), "loadModel");
    assert!(decorated_export_name().starts_with("?loadModel@Whisper@@"));
}

#[test]
fn wide_path_is_utf16_with_terminator() {
    assert_eq!(wide_path("a\u{20ac}\u{1f600}"), vec![0x61, 0x20ac, 0xd83d, 0xde00, 0]);
    assert_eq!(wide_path(""), vec![0]);
}

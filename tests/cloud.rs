use whisper_dictation::cloud::{
    build_google_request, google_request, google_transcript, openai_request, GoogleCloudProvider,
    LocalWhisperProvider, NativeSttProvider, OpenAiWhisperProvider,
};
use whisper_dictation::error::DictationError;
use whisper_dictation::providers::{ProviderConfig, ProviderId};

fn keyed(key: &str) -> ProviderConfig {
    ProviderConfig { api_key: Some(key.to_string()), model: None, language: None, endpoint: None }
}

#[test]
fn google_needs_a_key() {
    let c = ProviderConfig::default();
    assert_eq!(google_request(&vec![1, 2], &c), Err(DictationError::MissingCredential));
    assert_eq!(openai_request(&vec![1, 2], &c), Err(DictationError::MissingCredential));
}

#[test]
fn google_request_defaults() {
    let r = google_request(&vec![0, 1], &keyed("abc")).unwrap();
    assert_eq!(r.url, "https://speech.googleapis.com/v1/speech:recognize?key=abc");
    assert_eq!(r.encoding, "LINEAR16");
    assert_eq!(r.sample_rate_hertz, 16000);
    assert_eq!(r.language_code, "en-US");
    assert_eq!(r.model, "default");
    // 48 bytes of WAVE file give 64 base64 characters starting with "RIFF".
    assert_eq!(r.content.len(), 64);
    assert!(r.content.starts_with("UklGRi"));
}

#[test]
fn google_request_uses_configuration() {
    let c = ProviderConfig {
        api_key: Some("k".to_string()),
        model: Some("latest_long".to_string()),
        language: Some("nl-NL".to_string()),
        endpoint: Some("http://localhost:9/r".to_string()),
    };
    let r = build_google_request(&c, "QUJD".to_string()).unwrap();
    assert_eq!(r.url, "http://localhost:9/r?key=k");
    assert_eq!(r.language_code, "nl-NL");
    assert_eq!(r.model, "latest_long");
    assert_eq!(r.content, "QUJD");
}

#[test]
fn google_transcript_takes_first_alternative() {
    assert_eq!(google_transcript(None), "");
    assert_eq!(google_transcript(Some(vec![])), "");
    assert_eq!(google_transcript(Some(vec![vec![]])), "");
    assert_eq!(
        google_transcript(Some(vec![vec!["a".to_string(), "b".to_string()], vec!["c".to_string()]])),
        "a"
    );
}

#[test]
fn openai_request_fields() {
    let mut c = keyed("sk");
    c.language = Some("auto".to_string());
    let r = openai_request(&vec![7], &c).unwrap();
    assert_eq!(r.authorization, "Bearer sk");
    assert_eq!(r.model, "whisper-1");
    assert_eq!(r.endpoint, "https://api.openai.com/v1/audio/transcriptions");
    assert_eq!(r.language, None);
    assert_eq!(r.wav.len(), 46);
    c.language = Some("fr".to_string());
    c.model = Some("m".to_string());
    let r = openai_request(&vec![7], &c).unwrap();
    assert_eq!(r.language.as_deref(), Some("fr"));
    assert_eq!(r.model, "m");
}

#[test]
fn backend_identities() {
    assert_eq!(GoogleCloudProvider.id(), ProviderId::GoogleCloud);
    assert!(GoogleCloudProvider.is_available());
    assert_eq!(OpenAiWhisperProvider.name(), "OpenAI Whisper");
    assert_eq!(NativeSttProvider.locale(&ProviderConfig::default()), "auto");
    assert_eq!(NativeSttProvider.locale(&keyed("x")), "en-US");
    let local = LocalWhisperProvider::new(Some("/m/ggml.bin"));
    assert_eq!(local.model_path().as_deref(), Some("/m/ggml.bin"));
    assert!(!local.is_available());
    assert_eq!(LocalWhisperProvider::new(None).model_path, None);
}

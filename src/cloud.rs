//! The HTTP backends: what is sent, built from the canonical audio and the
//! backend's configuration, and what is taken from the answer. The
//! transport itself is the host's.
use vstd::prelude::*;
use vstd::string::*;
use crate::error::DictationError;
use crate::providers::{copy_text, ProviderConfig, ProviderId};
use crate::wav::{encode_pcm16_wav, wav_pcm16_mono, MAX_WAV_SAMPLES};

verus! {

/// The standard padded base64 text of `b`.
pub uninterp spec fn base64_of(b: Seq<u8>) -> Seq<char>;

/// Relies on `base64`'s `STANDARD` engine `encode`: the padded standard
/// alphabet, four characters for each started group of three bytes.
#[verifier::external_body]
fn base64_standard(b: &Vec<u8>) -> (r: String)
    ensures
        r@ == base64_of(b@),
        r@.len() == 4 * ((b@.len() + 2) / 3),
{
    base64::Engine::encode(&base64::engine::general_purpose::STANDARD, b)
}

/// `opt`'s text, or `fallback` when it is not set.
pub open spec fn text_or(opt: Option<String>, fallback: Seq<char>) -> Seq<char> {
    match opt {
        Some(t) => t@,
        None => fallback,
    }
}

fn text_or_else(opt: &Option<String>, fallback: &str) -> (r: String)
    ensures
        r@ == text_or(*opt, fallback@),
{
    match opt {
        Some(t) => t.clone(),
        None => String::from_str(fallback),
    }
}

/// The Google Cloud speech backend.
#[derive(Clone, Copy, Debug)]
pub struct GoogleCloudProvider;

impl GoogleCloudProvider {
    pub fn id(&self) -> (r: ProviderId)
        ensures
            r == ProviderId::GoogleCloud,
    {
        ProviderId::GoogleCloud
    }

    pub fn name(&self) -> (r: &'static str)
        ensures
            r@ == "Google Cloud STT"@,
    {
        "Google Cloud STT"
    }

    /// Always offered; a missing key is reported when transcribing.
    pub fn is_available(&self) -> (r: bool)
        ensures
            r,
    {
        true
    }
}

/// A recognition request to Google Cloud.
#[derive(Clone, Debug, PartialEq, Eq)]
pub struct GoogleRequest {
    /// Endpoint with the API key as query parameter.
    pub url: String,
    pub encoding: String,
    pub sample_rate_hertz: u32,
    pub language_code: String,
    pub model: String,
    /// The WAVE file, base64 encoded.
    pub content: String,
}

/// The endpoint used when none is configured.
pub fn google_default_endpoint() -> (r: &'static str)
    ensures
        r@ == "https://speech.googleapis.com/v1/speech:recognize"@,
{
    "https://speech.googleapis.com/v1/speech:recognize"
}

/// `r` is the Google request for `config` carrying `content`, given that an API key is set.
pub open spec fn is_google_request(r: GoogleRequest, config: ProviderConfig, content: Seq<char>) -> bool {
    &&& r.url@ == text_or(config.endpoint, "https://speech.googleapis.com/v1/speech:recognize"@)
        + "?key="@ + config.api_key->Some_0@
    &&& r.encoding@ == "LINEAR16"@
    &&& r.sample_rate_hertz == 16000
    &&& r.language_code@ == text_or(config.language, "en-US"@)
    &&& r.model@ == text_or(config.model, "default"@)
    &&& r.content@ == content
}

/// The Google request for `config` with the encoded audio `content`; fails
/// exactly when no API key is configured.
pub fn build_google_request(config: &ProviderConfig, content: String) -> (r: Result<
    GoogleRequest,
    DictationError,
>)
    ensures
        config.api_key is Some ==> r is Ok,
        config.api_key is None <==> r == Err::<GoogleRequest, DictationError>(
            DictationError::MissingCredential,
        ),
        r is Ok ==> is_google_request(r->Ok_0, *config, content@),
{
    let key = match &config.api_key {
        Some(k) => k,
        None => {
            return Err(DictationError::MissingCredential);
        },
    };
    let endpoint = text_or_else(&config.endpoint, google_default_endpoint());
    let url = endpoint.concat("?key=").concat(key.as_str());
    let encoding = String::from_str("LINEAR16");
    let language_code = text_or_else(&config.language, "en-US");
    let model = text_or_else(&config.model, "default");
    let request = GoogleRequest {
        url,
        encoding,
        sample_rate_hertz: 16000,
        language_code,
        model,
        content,
    };
    assert(is_google_request(request, *config, content@));
    Ok(request)
}

/// The Google request for canonical 16-bit samples: the key is checked
/// first, then the samples are wrapped in a 16 kHz WAVE file and base64 encoded.
pub fn google_request(samples: &Vec<i16>, config: &ProviderConfig) -> (r: Result<
    GoogleRequest,
    DictationError,
>)
    requires
        samples@.len() <= MAX_WAV_SAMPLES,
    ensures
        config.api_key is Some ==> r is Ok,
        config.api_key is None <==> r == Err::<GoogleRequest, DictationError>(
            DictationError::MissingCredential,
        ),
        r is Ok ==> is_google_request(
            r->Ok_0,
            *config,
            base64_of(wav_pcm16_mono(16000, samples@)),
        ),
{
    if config.api_key.is_none() {
        return Err(DictationError::MissingCredential);
    }
    let wav = encode_pcm16_wav(samples, 16000);
    let content = base64_standard(&wav);
    build_google_request(config, content)
}

/// The transcript of Google's answer: the first alternative of the first
/// result, or empty text. `results[i][j]` is alternative `j` of result `i`.
pub fn google_transcript(results: Option<Vec<Vec<String>>>) -> (r: String)
    ensures
        match results {
            Some(rs) => if rs@.len() > 0 && rs@[0]@.len() > 0 {
                r@ == rs@[0]@[0]@
            } else {
                r@.len() == 0
            },
            None => r@.len() == 0,
        },
{
    match results {
        Some(rs) => {
            if rs.len() > 0 && rs[0].len() > 0 {
                rs[0][0].clone()
            } else {
                String::new()
            }
        },
        None => String::new(),
    }
}

/// The OpenAI Whisper backend.
#[derive(Clone, Copy, Debug)]
pub struct OpenAiWhisperProvider;

impl OpenAiWhisperProvider {
    pub fn id(&self) -> (r: ProviderId)
        ensures
            r == ProviderId::OpenAiWhisper,
    {
        ProviderId::OpenAiWhisper
    }

    pub fn name(&self) -> (r: &'static str)
        ensures
            r@ == "OpenAI Whisper"@,
    {
        "OpenAI Whisper"
    }

    /// Always offered; a missing key is reported when transcribing.
    pub fn is_available(&self) -> (r: bool)
        ensures
            r,
    {
        true
    }
}

/// A multipart transcription request to OpenAI.
#[derive(Clone, Debug, PartialEq, Eq)]
pub struct OpenAiRequest {
    pub endpoint: String,
    /// Value of the `Authorization` header.
    pub authorization: String,
    pub model: String,
    /// The `language` form field, sent only for a fixed language.
    pub language: Option<String>,
    /// The WAVE file sent as `audio.wav` of type `audio/wav`.
    pub wav: Vec<u8>,
}

/// The endpoint used when none is configured.
pub fn openai_default_endpoint() -> (r: &'static str)
    ensures
        r@ == "https://api.openai.com/v1/audio/transcriptions"@,
{
    "https://api.openai.com/v1/audio/transcriptions"
}

/// The language a request names: the configured one unless it is automatic.
pub open spec fn fixed_language(language: Option<String>) -> Option<Seq<char>> {
    match language {
        Some(l) => if l@ == "auto"@ {
            None
        } else {
            Some(l@)
        },
        None => None,
    }
}

fn fixed_language_of(language: &Option<String>) -> (r: Option<String>)
    ensures
        match r {
            Some(l) => fixed_language(*language) == Some(l@),
            None => fixed_language(*language) is None,
        },
{
    match language {
        Some(l) => {
            let auto = String::from_str("auto");
            if *l == auto {
                None
            } else {
                Some(l.clone())
            }
        },
        None => None,
    }
}

/// The OpenAI request for canonical 16-bit samples; fails exactly when no
/// API key is configured.
pub fn openai_request(samples: &Vec<i16>, config: &ProviderConfig) -> (r: Result<
    OpenAiRequest,
    DictationError,
>)
    requires
        samples@.len() <= MAX_WAV_SAMPLES,
    ensures
        config.api_key is Some ==> r is Ok,
        config.api_key is None <==> r == Err::<OpenAiRequest, DictationError>(
            DictationError::MissingCredential,
        ),
        r is Ok ==> {
            let q = r->Ok_0;
            &&& q.endpoint@ == text_or(
                config.endpoint,
                "https://api.openai.com/v1/audio/transcriptions"@,
            )
            &&& q.authorization@ == "Bearer "@ + config.api_key->Some_0@
            &&& q.model@ == text_or(config.model, "whisper-1"@)
            &&& match q.language {
                Some(l) => fixed_language(config.language) == Some(l@),
                None => fixed_language(config.language) is None,
            }
            &&& q.wav@ == wav_pcm16_mono(16000, samples@)
        },
{
    let key = match &config.api_key {
        Some(k) => k,
        None => {
            return Err(DictationError::MissingCredential);
        },
    };
    let wav = encode_pcm16_wav(samples, 16000);
    let model = text_or_else(&config.model, "whisper-1");
    let endpoint = text_or_else(&config.endpoint, openai_default_endpoint());
    let authorization = String::from_str("Bearer ").concat(key.as_str());
    Ok(OpenAiRequest {
        endpoint,
        authorization,
        model,
        language: fixed_language_of(&config.language),
        wav,
    })
}

/// The operating system's own recognizer.
#[derive(Clone, Copy, Debug)]
pub struct NativeSttProvider;

impl NativeSttProvider {
    pub fn id(&self) -> (r: ProviderId)
        ensures
            r == ProviderId::NativeStt,
    {
        ProviderId::NativeStt
    }

    pub fn name(&self) -> (r: &'static str)
        ensures
            r@ == "OS Native STT"@,
    {
        "OS Native STT"
    }

    /// The locale the recognizer is asked for: the configured language, or US English.
    pub fn locale(&self, config: &ProviderConfig) -> (r: String)
        ensures
            r@ == text_or(config.language, "en-US"@),
    {
        text_or_else(&config.language, "en-US")
    }
}

/// The in-process whisper backend, present only in builds that include it.
#[derive(Clone, Debug)]
pub struct LocalWhisperProvider {
    pub model_path: Option<String>,
}

impl LocalWhisperProvider {
    /// A backend reading its model from `model_path`.
    pub fn new(model_path: Option<&str>) -> (r: LocalWhisperProvider)
        ensures
            match model_path {
                Some(p) => r.model_path is Some && r.model_path->Some_0@ == p@,
                None => r.model_path is None,
            },
    {
        match model_path {
            Some(p) => LocalWhisperProvider { model_path: Some(String::from_str(p)) },
            None => LocalWhisperProvider { model_path: None },
        }
    }

    pub fn id(&self) -> (r: ProviderId)
        ensures
            r == ProviderId::LocalWhisper,
    {
        ProviderId::LocalWhisper
    }

    pub fn name(&self) -> (r: &'static str)
        ensures
            r@ == "Local Whisper"@,
    {
        "Local Whisper"
    }

    /// This build carries no in-process engine.
    pub fn is_available(&self) -> (r: bool)
        ensures
            !r,
    {
        false
    }

    /// The path of the model, when one is configured.
    pub fn model_path(&self) -> (r: Option<String>)
        ensures
            r == self.model_path,
    {
        copy_text(&self.model_path)
    }
}

} // verus!

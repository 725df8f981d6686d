//! Speech-to-text backends: their identities, configuration, results, and
//! the registry that selects the active one.
use vstd::prelude::*;
use vstd::string::*;
use crate::settings::AppSettings;

verus! {

/// A speech-to-text backend.
#[derive(Clone, Copy, Debug, PartialEq, Eq, Hash, Structural)]
pub enum ProviderId {
    OpenAiWhisper,
    GoogleCloud,
    LocalWhisper,
    NativeStt,
    ConstmeWhisper,
}

impl ProviderId {
    /// The label shown for the backend in messages.
    pub fn label(&self) -> (r: &'static str)
        ensures
            *self == ProviderId::OpenAiWhisper ==> r@ == "OpenAI Whisper"@,
            *self == ProviderId::GoogleCloud ==> r@ == "Google Cloud"@,
            *self == ProviderId::LocalWhisper ==> r@ == "Local Whisper"@,
            *self == ProviderId::NativeStt ==> r@ == "Native STT"@,
            *self == ProviderId::ConstmeWhisper ==> r@ == "Whisper GPU (DirectCompute)"@,
    {
        match self {
            ProviderId::OpenAiWhisper => "OpenAI Whisper",
            ProviderId::GoogleCloud => "Google Cloud",
            ProviderId::LocalWhisper => "Local Whisper",
            ProviderId::NativeStt => "Native STT",
            ProviderId::ConstmeWhisper => "Whisper GPU (DirectCompute)",
        }
    }
}

/// Per-backend settings.
#[derive(Clone, Debug, PartialEq, Eq)]
pub struct ProviderConfig {
    pub api_key: Option<String>,
    pub model: Option<String>,
    pub language: Option<String>,
    pub endpoint: Option<String>,
}

/// The configuration a backend has when none was saved: automatic language, nothing else.
pub open spec fn is_default_config(c: ProviderConfig) -> bool {
    &&& c.api_key is None
    &&& c.model is None
    &&& c.endpoint is None
    &&& c.language is Some
    &&& c.language->Some_0@ == "auto"@
}

pub fn copy_text(s: &Option<String>) -> (r: Option<String>)
    ensures
        r == *s,
{
    match s {
        Some(t) => Some(t.clone()),
        None => None,
    }
}

impl ProviderConfig {
    /// A field-by-field copy.
    pub fn duplicate(&self) -> (r: ProviderConfig)
        ensures
            r == *self,
    {
        ProviderConfig {
            api_key: copy_text(&self.api_key),
            model: copy_text(&self.model),
            language: copy_text(&self.language),
            endpoint: copy_text(&self.endpoint),
        }
    }
}

impl Default for ProviderConfig {
    fn default() -> (r: ProviderConfig)
        ensures
            is_default_config(r),
    {
        ProviderConfig {
            api_key: None,
            model: None,
            language: Some(String::from_str("auto")),
            endpoint: None,
        }
    }
}

/// The outcome of one transcription.
#[derive(Clone, Debug, PartialEq, Eq)]
pub struct TranscriptionResult {
    pub text: String,
    pub provider: ProviderId,
    pub duration_ms: u64,
    pub language: Option<String>,
}

/// A backend as listed to the user.
#[derive(Clone, Debug, PartialEq, Eq)]
pub struct ProviderInfo {
    pub id: ProviderId,
    pub name: String,
    pub available: bool,
}

/// The backends of the registry, in order.
pub open spec fn registry_order() -> Seq<ProviderId> {
    seq![
        ProviderId::OpenAiWhisper,
        ProviderId::GoogleCloud,
        ProviderId::LocalWhisper,
        ProviderId::NativeStt,
        ProviderId::ConstmeWhisper,
    ]
}

/// The name each backend shows in the backend list.
pub open spec fn provider_name_of(id: ProviderId) -> Seq<char> {
    match id {
        ProviderId::OpenAiWhisper => "OpenAI Whisper"@,
        ProviderId::GoogleCloud => "Google Cloud STT"@,
        ProviderId::LocalWhisper => "Local Whisper"@,
        ProviderId::NativeStt => "OS Native STT"@,
        ProviderId::ConstmeWhisper => "Whisper GPU (DirectCompute)"@,
    }
}

/// The name each backend shows in the backend list.
pub fn provider_name(id: ProviderId) -> (r: &'static str)
    ensures
        r@ == provider_name_of(id),
{
    match id {
        ProviderId::OpenAiWhisper => "OpenAI Whisper",
        ProviderId::GoogleCloud => "Google Cloud STT",
        ProviderId::LocalWhisper => "Local Whisper",
        ProviderId::NativeStt => "OS Native STT",
        ProviderId::ConstmeWhisper => "Whisper GPU (DirectCompute)",
    }
}

/// `i` is the backend a call goes to: the first one with the active
/// identity, or the first backend when none has it.
pub open spec fn is_active_index(ids: Seq<ProviderId>, active: ProviderId, i: int) -> bool {
    &&& 0 <= i < ids.len()
    &&& if exists|k: int| 0 <= k < ids.len() && ids[k] == active {
        ids[i] == active && forall|j: int| 0 <= j < i ==> ids[j] != active
    } else {
        i == 0
    }
}

/// The registry of backends and the identity of the active one.
#[derive(Debug)]
pub struct ProviderManager {
    pub providers: Vec<ProviderId>,
    pub active_provider: ProviderId,
}

impl ProviderManager {
    pub open spec fn wf(&self) -> bool {
        self.providers@.len() > 0
    }

    /// One backend of each kind, in registry order, with the saved active backend.
    pub fn new(settings: &AppSettings) -> (r: ProviderManager)
        ensures
            r.wf(),
            r.providers@ == registry_order(),
            r.active_provider == settings.active_provider,
    {
        let providers = vec![
            ProviderId::OpenAiWhisper,
            ProviderId::GoogleCloud,
            ProviderId::LocalWhisper,
            ProviderId::NativeStt,
            ProviderId::ConstmeWhisper,
        ];
        assert(providers@ =~= registry_order());
        ProviderManager { providers, active_provider: settings.active_provider }
    }

    /// Makes `id` the active backend; nothing else changes.
    pub fn set_active(&mut self, id: ProviderId)
        ensures
            final(self).active_provider == id,
            final(self).providers@ == old(self).providers@,
    {
        self.active_provider = id;
    }

    /// Index, in `providers`, of the backend calls go to.
    pub fn get_active(&self) -> (r: usize)
        requires
            self.wf(),
        ensures
            is_active_index(self.providers@, self.active_provider, r as int),
    {
        let mut i: usize = 0;
        while i < self.providers.len()
            invariant
                i <= self.providers@.len(),
                forall|j: int| 0 <= j < i ==> self.providers@[j] != self.active_provider,
            decreases self.providers@.len() - i,
        {
            if self.providers[i] == self.active_provider {
                assert(self.providers@[i as int] == self.active_provider);
                return i;
            }
            i = i + 1;
        }
        assert(forall|k: int|
            0 <= k < self.providers@.len() ==> self.providers@[k] != self.active_provider);
        0
    }

    /// The active backend's identity.
    pub fn active_id(&self) -> (r: &ProviderId)
        ensures
            *r == self.active_provider,
    {
        &self.active_provider
    }

    /// Every backend with its name and the availability the caller found
    /// (`available[i]` for `providers[i]`).
    pub fn list_providers(&self, available: &Vec<bool>) -> (r: Vec<ProviderInfo>)
        requires
            available@.len() == self.providers@.len(),
        ensures
            r@.len() == self.providers@.len(),
            forall|i: int|
                0 <= i < r@.len() ==> {
                    &&& #[trigger] r@[i].id == self.providers@[i]
                    &&& r@[i].name@ == provider_name_of(self.providers@[i])
                    &&& r@[i].available == available@[i]
                },
    {
        let mut out: Vec<ProviderInfo> = Vec::new();
        let mut i: usize = 0;
        while i < self.providers.len()
            invariant
                i <= self.providers@.len(),
                available@.len() == self.providers@.len(),
                out@.len() == i,
                forall|k: int|
                    0 <= k < i ==> {
                        &&& #[trigger] out@[k].id == self.providers@[k]
                        &&& out@[k].name@ == provider_name_of(self.providers@[k])
                        &&& out@[k].available == available@[k]
                    },
            decreases self.providers@.len() - i,
        {
            let id = self.providers[i];
            let name = String::from_str(provider_name(id));
            out.push(ProviderInfo { id, name, available: available[i] });
            i = i + 1;
        }
        out
    }
}

} // verus!

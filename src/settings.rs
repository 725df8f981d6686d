//! User settings the core consumes.
use vstd::prelude::*;
use vstd::string::*;
use crate::providers::{is_default_config, ProviderConfig, ProviderId};

verus! {

/// How the global shortcut drives recording.
#[derive(Clone, Copy, Debug, PartialEq, Eq, Structural)]
pub enum InteractionMode {
    /// Record while the shortcut is held.
    PushToTalk,
    /// Each press starts or stops recording.
    Toggle,
}

/// The saved settings. A backend appears at most once in `provider_configs`.
#[derive(Clone, Debug)]
pub struct AppSettings {
    pub active_provider: ProviderId,
    pub interaction_mode: InteractionMode,
    pub hotkey: String,
    pub language: String,
    pub provider_configs: Vec<(ProviderId, ProviderConfig)>,
    pub local_whisper_model_path: Option<String>,
    pub constme_whisper_dll_path: Option<String>,
    pub constme_whisper_model_path: Option<String>,
    pub constme_whisper_model_name: Option<String>,
    pub auto_paste: bool,
    pub show_overlay: bool,
    pub input_device: Option<String>,
}

/// The configuration saved for `id`: that of its first entry.
pub open spec fn config_for(entries: Seq<(ProviderId, ProviderConfig)>, id: ProviderId) -> Option<
    ProviderConfig,
>
    decreases entries.len(),
{
    if entries.len() == 0 {
        None
    } else if entries[0].0 == id {
        Some(entries[0].1)
    } else {
        config_for(entries.drop_first(), id)
    }
}

impl Default for AppSettings {
    fn default() -> (r: AppSettings)
        ensures
            r.active_provider == ProviderId::OpenAiWhisper,
            r.interaction_mode == InteractionMode::Toggle,
            r.hotkey@ == "CommandOrControl+Shift+Space"@,
            r.language@ == "auto"@,
            r.provider_configs@.len() == 0,
            r.wf(),
            r.local_whisper_model_path is None,
            r.constme_whisper_dll_path is None,
            r.constme_whisper_model_path is None,
            r.constme_whisper_model_name is None,
            r.auto_paste,
            r.show_overlay,
            r.input_device is None,
    {
        AppSettings {
            active_provider: ProviderId::OpenAiWhisper,
            interaction_mode: InteractionMode::Toggle,
            hotkey: String::from_str("CommandOrControl+Shift+Space"),
            language: String::from_str("auto"),
            provider_configs: Vec::new(),
            local_whisper_model_path: None,
            constme_whisper_dll_path: None,
            constme_whisper_model_path: None,
            constme_whisper_model_name: None,
            auto_paste: true,
            show_overlay: true,
            input_device: None,
        }
    }
}

impl AppSettings {
    /// A backend appears at most once among the saved configurations.
    pub open spec fn wf(&self) -> bool {
        forall|i: int, j: int|
            0 <= i < j < self.provider_configs@.len() ==> #[trigger] self.provider_configs@[i].0
                != #[trigger] self.provider_configs@[j].0
    }

    /// The configuration saved for backend `id`, or the default one.
    pub fn get_provider_config(&self, id: &ProviderId) -> (r: ProviderConfig)
        ensures
            config_for(self.provider_configs@, *id) is Some ==> r == config_for(
                self.provider_configs@,
                *id,
            )->Some_0,
            config_for(self.provider_configs@, *id) is None ==> is_default_config(r),
            self.wf() ==> forall|j: int|
                0 <= j < self.provider_configs@.len() && self.provider_configs@[j].0 == *id ==> r
                    == #[trigger] self.provider_configs@[j].1,
    {
        let mut i: usize = 0;
        assert(self.provider_configs@.subrange(0, self.provider_configs@.len() as int)
            =~= self.provider_configs@);
        while i < self.provider_configs.len()
            invariant
                i <= self.provider_configs@.len(),
                config_for(self.provider_configs@, *id) == config_for(
                    self.provider_configs@.subrange(i as int, self.provider_configs@.len() as int),
                    *id,
                ),
                forall|k: int| 0 <= k < i ==> #[trigger] self.provider_configs@[k].0 != *id,
            decreases self.provider_configs@.len() - i,
        {
            let ghost rest = self.provider_configs@.subrange(
                i as int,
                self.provider_configs@.len() as int,
            );
            assert(rest.drop_first() =~= self.provider_configs@.subrange(
                i + 1,
                self.provider_configs@.len() as int,
            ));
            let entry = &self.provider_configs[i];
            if entry.0 == *id {
                let r = entry.1.duplicate();
                proof {
                    if self.wf() {
                        assert forall|j: int|
                            0 <= j < self.provider_configs@.len() && self.provider_configs@[j].0
                                == *id implies r == #[trigger] self.provider_configs@[j].1 by {
                            if j < i {
                                assert(self.provider_configs@[j].0 != self.provider_configs@[i as int].0);
                            } else if j > i {
                                assert(self.provider_configs@[i as int].0 != self.provider_configs@[j].0);
                            }
                        }
                    }
                }
                return r;
            }
            i = i + 1;
        }
        ProviderConfig::default()
    }
}

} // verus!

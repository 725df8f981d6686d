use whisper_dictation::providers::{provider_name, ProviderConfig, ProviderId, ProviderManager};
use whisper_dictation::settings::{AppSettings, InteractionMode};

#[test]
fn default_settings() {
    let s = AppSettings::default();
    assert_eq!(s.active_provider, ProviderId::OpenAiWhisper);
    assert_eq!(s.interaction_mode, InteractionMode::Toggle);
    assert_eq!(s.hotkey, "CommandOrControl+Shift+Space");
    assert_eq!(s.language, "auto");
    assert!(s.auto_paste && s.show_overlay);
    assert!(s.provider_configs.is_empty());
}

#[test]
fn provider_config_defaults_to_automatic_language() {
    let s = AppSettings::default();
    let c = s.get_provider_config(&ProviderId::GoogleCloud);
    assert_eq!(c.language.as_deref(), Some("auto"));
    assert_eq!(c.api_key, None);
    assert_eq!(c.model, None);
    assert_eq!(c.endpoint, None);
}

#[test]
fn provider_config_first_entry_wins() {
    let mut s = AppSettings::default();
    let mut a = ProviderConfig::default();
    a.api_key = Some("first".to_string());
    let mut b = ProviderConfig::default();
    b.api_key = Some("second".to_string());
    s.provider_configs.push((ProviderId::NativeStt, ProviderConfig::default()));
    s.provider_configs.push((ProviderId::OpenAiWhisper, a.clone()));
    s.provider_configs.push((ProviderId::OpenAiWhisper, b));
    assert_eq!(s.get_provider_config(&ProviderId::OpenAiWhisper), a);
}

#[test]
fn active_backend_falls_back_to_first() {
    let mut s = AppSettings::default();
    s.active_provider = ProviderId::ConstmeWhisper;
    let mut m = ProviderManager::new(&s);
    assert_eq!(m.get_active(), 4);
    assert_eq!(*m.active_id(), ProviderId::ConstmeWhisper);
    m.providers.truncate(2);
    assert_eq!(m.get_active(), 0);
    m.set_active(ProviderId::GoogleCloud);
    assert_eq!(m.get_active(), 1);
}

#[test]
fn backend_list_carries_names_and_availability() {
    let m = ProviderManager::new(&AppSettings::default());
    let list = m.list_providers(&vec![true, true, false, false, true]);
    assert_eq!(list.len(), 5);
    assert_eq!(list[1].name, "Google Cloud STT");
    assert_eq!(list[3].name, "OS Native STT");
    assert!(!list[2].available);
    assert_eq!(list[4].id, ProviderId::ConstmeWhisper);
    assert_eq!(provider_name(ProviderId::ConstmeWhisper), "Whisper GPU (DirectCompute)");
    assert_eq!(ProviderId::NativeStt.label(), "Native STT");
}

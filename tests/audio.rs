use whisper_dictation::audio::{choose_device, mark_default_devices, DeviceChoice};

#[test]
fn default_device_is_flagged() {
    let names = vec!["Mic A".to_string(), "Mic B".to_string()];
    let list = mark_default_devices(names, &Some("Mic B".to_string()));
    assert_eq!(list.len(), 2);
    assert!(!list[0].is_default);
    assert!(list[1].is_default);
    assert_eq!(list[1].name, "Mic B");
    let none = mark_default_devices(vec!["Mic A".to_string()], &None);
    assert!(!none[0].is_default);
}

#[test]
fn requested_device_or_default() {
    let names = vec![None, Some("USB".to_string()), Some("USB".to_string())];
    assert_eq!(choose_device(&names, &None), DeviceChoice::Default { warn: false });
    assert_eq!(choose_device(&names, &Some("USB".to_string())), DeviceChoice::Named(1));
    assert_eq!(choose_device(&names, &Some("Line".to_string())), DeviceChoice::Default { warn: true });
}

use whisper_dictation::history::TranscriptionHistory;
use whisper_dictation::providers::{ProviderId, TranscriptionResult};

fn result(text: &str) -> TranscriptionResult {
    TranscriptionResult {
        text: text.to_string(),
        provider: ProviderId::LocalWhisper,
        duration_ms: 7,
        language: Some("en".to_string()),
    }
}

#[test]
fn newest_first_and_bounded() {
    let mut h = TranscriptionHistory::new(2);
    h.add(&result("one"), 1700000000001);
    h.add(&result("two"), 1700000000002);
    h.add(&result("three"), 1700000000003);
    let all = h.get_all();
    assert_eq!(all.len(), 2);
    assert_eq!(all[0].text, "three");
    assert_eq!(all[1].text, "two");
    assert_eq!(all[0].provider, ProviderId::LocalWhisper);
    assert_eq!(all[0].language.as_deref(), Some("en"));
    assert_eq!(all[0].duration_ms, 7);
    assert_eq!(all[0].timestamp_ms, 1_700_000_000_003);
    assert_eq!(all[1].timestamp_ms, 1_700_000_000_002);
}

#[test]
fn entries_get_distinct_hyphenated_ids() {
    let mut h = TranscriptionHistory::new(10);
    h.add(&result("a"), 1700000000004);
    h.add(&result("b"), 1700000000005);
    let all = h.get_all();
    assert_eq!(all[0].id.len(), 36);
    assert_eq!(all[0].id.matches('-').count(), 4);
    assert_ne!(all[0].id, all[1].id);
}

#[test]
fn zero_capacity_and_clear() {
    let mut h = TranscriptionHistory::new(0);
    h.add(&result("a"), 1700000000006);
    assert!(h.get_all().is_empty());
    let mut h = TranscriptionHistory::new(3);
    h.add(&result("a"), 1700000000007);
    h.clear();
    assert!(h.get_all().is_empty());
}

//! The most recent transcriptions, newest first.
use vstd::prelude::*;
use crate::providers::{copy_text, ProviderId, TranscriptionResult};

verus! {

/// A lowercase hexadecimal digit.
pub open spec fn is_lower_hex(c: char) -> bool {
    ('0' <= c && c <= '9') || ('a' <= c && c <= 'f')
}

/// The hyphenated lowercase form of a UUID: 8-4-4-4-12 hexadecimal digits.
pub open spec fn is_hyphenated_uuid(s: Seq<char>) -> bool {
    &&& s.len() == 36
    &&& forall|i: int|
        0 <= i < 36 ==> if i == 8 || i == 13 || i == 18 || i == 23 {
            #[trigger] s[i] == '-'
        } else {
            is_lower_hex(s[i])
        }
}

/// Relies on `uuid::Uuid::new_v4` and its `Display`, which writes the
/// hyphenated lowercase form. The value is random.
#[verifier::external_body]
fn new_entry_id() -> (r: String)
    ensures
        is_hyphenated_uuid(r@),
{
    uuid::Uuid::new_v4().to_string()
}

/// One recorded transcription.
#[derive(Clone, Debug, PartialEq, Eq)]
pub struct TranscriptionEntry {
    pub id: String,
    pub text: String,
    pub provider: ProviderId,
    /// Milliseconds since the Unix epoch, UTC.
    pub timestamp_ms: i64,
    pub duration_ms: u64,
    pub language: Option<String>,
}

/// `e` records result `r`, made at `timestamp_ms`.
pub open spec fn records(e: TranscriptionEntry, r: TranscriptionResult, timestamp_ms: i64) -> bool {
    &&& e.text == r.text
    &&& e.provider == r.provider
    &&& e.duration_ms == r.duration_ms
    &&& e.language == r.language
    &&& is_hyphenated_uuid(e.id@)
    &&& e.timestamp_ms == timestamp_ms
}

/// The history, holding at most `max_entries` entries.
#[derive(Debug)]
pub struct TranscriptionHistory {
    pub entries: Vec<TranscriptionEntry>,
    pub max_entries: usize,
}

impl TranscriptionHistory {
    pub open spec fn wf(&self) -> bool {
        self.entries@.len() <= self.max_entries
    }

    /// An empty history keeping at most `max_entries` entries.
    pub fn new(max_entries: usize) -> (r: TranscriptionHistory)
        ensures
            r.wf(),
            r.entries@.len() == 0,
            r.max_entries == max_entries,
    {
        TranscriptionHistory { entries: Vec::new(), max_entries }
    }

    /// Records `result`, made at `timestamp_ms` (milliseconds since the Unix
    /// epoch), as the newest entry with a fresh identifier, dropping the
    /// oldest entries beyond the limit.
    pub fn add(&mut self, result: &TranscriptionResult, timestamp_ms: i64)
        requires
            old(self).wf(),
        ensures
            final(self).wf(),
            final(self).max_entries == old(self).max_entries,
            final(self).max_entries == 0 ==> final(self).entries@.len() == 0,
            final(self).max_entries > 0 ==> {
                &&& final(self).entries@.len() == if old(self).entries@.len() < old(self).max_entries {
                    old(self).entries@.len() + 1 as int
                } else {
                    old(self).max_entries as int
                }
                &&& records(final(self).entries@[0], *result, timestamp_ms)
                &&& final(self).entries@.drop_first() == old(self).entries@.take(
                    final(self).entries@.len() - 1,
                )
            },
    {
        let entry = TranscriptionEntry {
            id: new_entry_id(),
            text: result.text.clone(),
            provider: result.provider,
            timestamp_ms,
            duration_ms: result.duration_ms,
            language: copy_text(&result.language),
        };
        let ghost before = self.entries@;
        self.entries.insert(0, entry);
        self.entries.truncate(self.max_entries);
        proof {
            if self.max_entries > 0 {
                assert(self.entries@.drop_first() =~= before.take(self.entries@.len() - 1));
            }
        }
    }

    /// All entries, newest first.
    pub fn get_all(&self) -> (r: &[TranscriptionEntry])
        ensures
            r@ == self.entries@,
    {
        self.entries.as_slice()
    }

    /// Removes every entry.
    pub fn clear(&mut self)
        ensures
            final(self).entries@.len() == 0,
            final(self).max_entries == old(self).max_entries,
    {
        self.entries.clear();
    }
}

} // verus!

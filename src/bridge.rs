//! Decisions of one transcription call into the foreign inference library.
//!
//! The library hands out reference-counted objects reached through tables of
//! function pointers. The host performs each foreign call; this module says
//! which call comes next, what it is given, and when each object is released,
//! so that every object the call obtains is released exactly once on every
//! path, and the host's audio object outlives the run call.
use vstd::prelude::*;
use vstd::string::*;
use vstd::utf8::encode_utf8;
use crate::error::{check_status, DictationError, ForeignOp};
use crate::text::{segments_text, segments_text_of};

verus! {

/// Status the host's audio object answers to a query for another interface.
pub const E_NOINTERFACE: i32 = -2147467262;

/// Success status.
pub const S_OK: i32 = 0;

/// Output flags cleared on every call: print progress, print realtime, print timestamps.
pub const QUIET_FLAGS_MASK: u32 = 0x70;

/// Bytes packed little-endian into an integer.
pub open spec fn pack_le(b: Seq<u8>) -> int
    decreases b.len(),
{
    if b.len() == 0 {
        0
    } else {
        b[0] as int + 256 * pack_le(b.drop_first())
    }
}

/// At most the first four bytes of `b`.
pub open spec fn first_four(b: Seq<u8>) -> Seq<u8> {
    if b.len() <= 4 {
        b
    } else {
        b.take(4)
    }
}

/// The language selector field for an ISO code: its first four bytes,
/// one per byte from the least significant end.
pub open spec fn language_key_of(code: Seq<u8>) -> int {
    pack_le(first_four(code))
}

proof fn lemma_pack_le_bound(b: Seq<u8>)
    ensures
        0 <= pack_le(b),
        b.len() <= 4 ==> pack_le(b) < 0x1_0000_0000,
        b.len() <= 3 ==> pack_le(b) < 0x100_0000,
        b.len() <= 2 ==> pack_le(b) < 0x1_0000,
        b.len() <= 1 ==> pack_le(b) < 0x100,
        b.len() == 0 ==> pack_le(b) == 0,
    decreases b.len(),
{
    if b.len() > 0 {
        lemma_pack_le_bound(b.drop_first());
    }
}

/// Packs a language code such as "en" into the foreign language selector.
pub fn make_language_key(code: &str) -> (r: u32)
    ensures
        r as int == language_key_of(code.spec_bytes()),
{
    let bytes = code.as_bytes();
    let n: usize = if bytes.len() < 4 {
        bytes.len()
    } else {
        4
    };
    let ghost head = first_four(bytes@);
    assert(head =~= bytes@.subrange(0, n as int));
    let mut key: u32 = 0;
    let mut i: usize = n;
    while i > 0
        invariant
            n <= 4,
            n <= bytes@.len(),
            i <= n,
            head =~= bytes@.subrange(0, n as int),
            key as int == pack_le(bytes@.subrange(i as int, n as int)),
        decreases i,
    {
        let ghost tail = bytes@.subrange(i as int, n as int);
        let ghost longer = bytes@.subrange(i - 1, n as int);
        assert(longer.drop_first() =~= tail);
        proof {
            lemma_pack_le_bound(tail);
            lemma_pack_le_bound(longer);
        }
        key = key * 256 + bytes[i - 1] as u32;
        i = i - 1;
    }
    key
}

/// The language selector a call sets, or `None` to keep the library's
/// default (no language configured, or automatic detection).
pub open spec fn language_selector_of(language: Option<String>) -> Option<int> {
    match language {
        None => None,
        Some(l) => if l@ == "auto"@ {
            None
        } else {
            Some(language_key_of(encode_utf8(l@)))
        },
    }
}

fn is_auto(l: &String) -> (r: bool)
    ensures
        r == (l@ == "auto"@),
{
    let auto = String::from_str("auto");
    proof {
        reveal_strlit("auto");
    }
    *l == auto
}

/// The language selector for the configured language.
pub fn language_selector(language: &Option<String>) -> (r: Option<u32>)
    ensures
        match r {
            None => language_selector_of(*language) is None,
            Some(k) => language_selector_of(*language) == Some(k as int),
        },
{
    match language {
        None => None,
        Some(l) => {
            if is_auto(l) {
                None
            } else {
                Some(make_language_key(l.as_str()))
            }
        },
    }
}

/// How the library searches for text.
#[derive(Clone, Copy, Debug, PartialEq, Eq, Structural)]
pub enum SamplingStrategy {
    Greedy,
    BeamSearch,
}

/// Whether the call holds one of the objects it deals with.
#[derive(Clone, Copy, Debug, PartialEq, Eq, Structural)]
pub enum Hold {
    /// Not obtained yet.
    Absent,
    /// Obtained and not yet released.
    Held,
    /// Released; it must not be released again.
    Released,
}

/// The objects of one call: the host's audio object, the foreign result
/// object and the foreign inference context.
#[derive(Clone, Copy, Debug, PartialEq, Eq, Structural)]
pub enum Slot {
    Audio,
    Result,
    Context,
}

/// Where a call stands.
#[derive(Clone, Copy, Debug, PartialEq, Eq, Structural)]
pub enum Stage {
    Start,
    AwaitContext,
    AwaitParams,
    AwaitRun,
    AfterRun,
    AwaitResults,
    AwaitSize,
    AwaitSegments,
    Releasing,
    Finished,
}

/// What the host reports after doing what the call asked.
#[derive(Debug)]
pub enum CallEvent {
    /// The call begins.
    Begin,
    /// Status of the last foreign call (create context, default parameters,
    /// run, get results). On success of create context and get results the
    /// host now holds the returned object.
    Status(i32),
    /// Status of the size query and the number of segments it reported.
    Size { status: i32, segments: u32 },
    /// The text of each segment; `None` where the segment has no readable text.
    Segments(Vec<Option<String>>),
    /// The requested release was done.
    Released,
}

/// What the host must do next.
#[derive(Debug)]
pub enum CallAction {
    /// Ask the cached model for a new inference context.
    CreateContext,
    /// Ask the context for its default parameters for a sampling strategy.
    DefaultParams { strategy: SamplingStrategy },
    /// Set the language selector (when `Some`), clear `cleared_flags` from the
    /// flags, wrap the samples in a new host audio object holding one
    /// reference, and run the context on it.
    Run { language: Option<u32>, cleared_flags: u32 },
    /// Ask the context for its results.
    GetResults,
    /// Ask the result object for its size.
    GetSize,
    /// Read the text of that many segments.
    ReadSegments(u32),
    /// Release the host's reference to that object.
    Release(Slot),
    /// The call is over, with this outcome.
    Finish(Result<String, DictationError>),
}

/// One transcription call through the foreign library.
#[derive(Debug)]
pub struct TranscribeCall {
    pub stage: Stage,
    pub sample_count: usize,
    pub language: Option<u32>,
    pub audio: Hold,
    pub result: Hold,
    pub context: Hold,
    pub outcome: Option<Result<String, DictationError>>,
}

/// What the call holds of `slot`.
pub open spec fn hold_of(c: TranscribeCall, slot: Slot) -> Hold {
    match slot {
        Slot::Audio => c.audio,
        Slot::Result => c.result,
        Slot::Context => c.context,
    }
}

/// The slot an action releases, if any.
pub open spec fn released_by(a: CallAction) -> Option<Slot> {
    match a {
        CallAction::Release(s) => Some(s),
        _ => None,
    }
}

/// One step of a call keeps the release discipline: a held slot stays held
/// until the step that releases it, a slot is released only while held,
/// never again afterwards, exactly when the action says so, and a finished
/// call holds nothing.
pub open spec fn release_step_ok(pre: TranscribeCall, post: TranscribeCall, a: CallAction) -> bool {
    &&& forall|s: Slot|
        hold_of(pre, s) == Hold::Held && released_by(a) != Some(s) ==> #[trigger] hold_of(post, s)
            == Hold::Held
    &&& forall|s: Slot|
        hold_of(pre, s) == Hold::Released ==> #[trigger] hold_of(post, s) == Hold::Released
    &&& forall|s: Slot|
        (#[trigger] hold_of(post, s) == Hold::Released && hold_of(pre, s) != Hold::Released)
            <==> released_by(a) == Some(s)
    &&& forall|s: Slot| released_by(a) == Some(s) ==> #[trigger] hold_of(pre, s) == Hold::Held
    &&& post.stage == Stage::Finished ==> forall|s: Slot| #[trigger] hold_of(post, s) != Hold::Held
}

/// Whether `event` is what the host reports at `stage`.
pub open spec fn expected_event(stage: Stage, event: CallEvent) -> bool {
    match stage {
        Stage::Start => event is Begin,
        Stage::AwaitContext | Stage::AwaitParams | Stage::AwaitRun | Stage::AwaitResults => event is Status,
        Stage::AfterRun | Stage::Releasing => event is Released,
        Stage::AwaitSize => event is Size,
        Stage::AwaitSegments => event is Segments,
        Stage::Finished => false,
    }
}

/// The call has decided outcome `o`: it keeps `o` while it releases what it
/// holds, or it has finished with `o`.
pub open spec fn concluded_with(
    post: TranscribeCall,
    a: CallAction,
    o: Result<String, DictationError>,
) -> bool {
    ||| post.stage == Stage::Releasing && post.outcome == Some(o) && a is Release
    ||| post.stage == Stage::Finished && a == CallAction::Finish(o)
}

/// The call has decided to succeed with text `text`, kept while it releases
/// what it holds.
pub open spec fn concluded_with_text(post: TranscribeCall, a: CallAction, text: Seq<char>) -> bool {
    ||| post.stage == Stage::Releasing && post.outcome is Some && post.outcome->Some_0 is Ok
        && post.outcome->Some_0->Ok_0@ == text && a is Release
    ||| post.stage == Stage::Finished && a is Finish && a->Finish_0 is Ok && a->Finish_0->Ok_0@
        == text
}

impl TranscribeCall {
    /// What each stage implies of the objects held.
    pub open spec fn wf(&self) -> bool {
        match self.stage {
            Stage::Start | Stage::AwaitContext => self.audio == Hold::Absent && self.result
                == Hold::Absent && self.context == Hold::Absent,
            Stage::AwaitParams => self.audio == Hold::Absent && self.result == Hold::Absent
                && self.context == Hold::Held,
            Stage::AwaitRun => self.audio == Hold::Held && self.result == Hold::Absent
                && self.context == Hold::Held,
            Stage::AfterRun | Stage::AwaitResults => self.audio == Hold::Released && self.result
                == Hold::Absent && self.context == Hold::Held,
            Stage::AwaitSize | Stage::AwaitSegments => self.audio == Hold::Released
                && self.result == Hold::Held && self.context == Hold::Held,
            Stage::Releasing => self.outcome is Some,
            Stage::Finished => self.audio != Hold::Held && self.result != Hold::Held
                && self.context != Hold::Held,
        }
    }

    /// A call on `sample_count` canonical samples with the configured language.
    pub fn new(sample_count: usize, language: &Option<String>) -> (r: TranscribeCall)
        ensures
            r.wf(),
            r.stage == Stage::Start,
            r.sample_count == sample_count,
            r.audio == Hold::Absent && r.result == Hold::Absent && r.context == Hold::Absent,
            match r.language {
                None => language_selector_of(*language) is None,
                Some(k) => language_selector_of(*language) == Some(k as int),
            },
    {
        TranscribeCall {
            stage: Stage::Start,
            sample_count,
            language: language_selector(language),
            audio: Hold::Absent,
            result: Hold::Absent,
            context: Hold::Absent,
            outcome: None,
        }
    }

    /// Releases the next held object, or finishes when none is held.
    fn release_next(&mut self) -> (a: CallAction)
        requires
            old(self).stage == Stage::Releasing,
            old(self).outcome is Some,
        ensures
            release_step_ok(*old(self), *final(self), a),
            final(self).wf(),
            final(self).stage == Stage::Releasing || final(self).stage == Stage::Finished,
            final(self).stage == Stage::Releasing ==> final(self).outcome == old(self).outcome
                && a is Release,
            final(self).stage == Stage::Finished <==> (old(self).audio != Hold::Held
                && old(self).result != Hold::Held && old(self).context != Hold::Held),
            final(self).stage == Stage::Finished ==> a == CallAction::Finish(
                old(self).outcome->Some_0,
            ),
            old(self).audio == Hold::Held ==> a == CallAction::Release(Slot::Audio),
            old(self).audio != Hold::Held && old(self).result == Hold::Held ==> a
                == CallAction::Release(Slot::Result),
            old(self).audio != Hold::Held && old(self).result != Hold::Held && old(self).context
                == Hold::Held ==> a == CallAction::Release(Slot::Context),
            final(self).sample_count == old(self).sample_count,
            final(self).language == old(self).language,
    {
        if self.audio == Hold::Held {
            self.audio = Hold::Released;
            CallAction::Release(Slot::Audio)
        } else if self.result == Hold::Held {
            self.result = Hold::Released;
            CallAction::Release(Slot::Result)
        } else if self.context == Hold::Held {
            self.context = Hold::Released;
            CallAction::Release(Slot::Context)
        } else {
            self.stage = Stage::Finished;
            let outcome = self.outcome.take();
            match outcome {
                Some(o) => CallAction::Finish(o),
                None => CallAction::Finish(Err(DictationError::OutOfOrder)),
            }
        }
    }

    /// Decides the outcome and starts releasing what is held.
    fn conclude(&mut self, outcome: Result<String, DictationError>) -> (a: CallAction)
        requires
            old(self).wf(),
            old(self).stage != Stage::Finished,
            old(self).stage != Stage::Releasing,
        ensures
            release_step_ok(*old(self), *final(self), a),
            final(self).wf(),
            final(self).stage == Stage::Releasing || final(self).stage == Stage::Finished,
            final(self).stage == Stage::Releasing ==> final(self).outcome == Some(outcome)
                && a is Release,
            final(self).stage == Stage::Finished ==> a == CallAction::Finish(outcome),
            final(self).stage == Stage::Finished <==> (old(self).audio != Hold::Held
                && old(self).result != Hold::Held && old(self).context != Hold::Held),
            old(self).audio == Hold::Held ==> a == CallAction::Release(Slot::Audio),
            old(self).audio != Hold::Held && old(self).result == Hold::Held ==> a
                == CallAction::Release(Slot::Result),
            old(self).audio != Hold::Held && old(self).result != Hold::Held && old(self).context
                == Hold::Held ==> a == CallAction::Release(Slot::Context),
            final(self).sample_count == old(self).sample_count,
            final(self).language == old(self).language,
    {
        self.stage = Stage::Releasing;
        self.outcome = Some(outcome);
        let ghost mid = *self;
        assert(forall|s: Slot| #[trigger] hold_of(mid, s) == hold_of(*old(self), s));
        self.release_next()
    }

    /// Advances the call on the host's report of what it last did.
    pub fn step(&mut self, event: CallEvent) -> (a: CallAction)
        requires
            old(self).wf(),
        ensures
            final(self).wf(),
            release_step_ok(*old(self), *final(self), a),
            final(self).language == old(self).language,
            final(self).sample_count == old(self).sample_count,
            old(self).stage == Stage::AwaitRun ==> a == CallAction::Release(Slot::Audio),
            old(self).stage == Stage::Start && event is Begin ==> if old(self).sample_count == 0 {
                concluded_with(*final(self), a, Err(DictationError::NoAudio))
            } else {
                a == CallAction::CreateContext && final(self).stage == Stage::AwaitContext
            },
            old(self).stage != Stage::Releasing && old(self).stage != Stage::Finished
                && !expected_event(old(self).stage, event) ==> concluded_with(
                *final(self),
                a,
                Err(DictationError::OutOfOrder),
            ),
            old(self).stage == Stage::AwaitContext && event is Status ==> if event->Status_0 < 0 {
                concluded_with(
                    *final(self),
                    a,
                    Err(DictationError::Inference { op: ForeignOp::CreateContext, code: event->Status_0 }),
                )
            } else {
                a == CallAction::DefaultParams { strategy: SamplingStrategy::Greedy }
                    && final(self).stage == Stage::AwaitParams
            },
            old(self).stage == Stage::AwaitParams && event is Status ==> if event->Status_0 < 0 {
                a == CallAction::Release(Slot::Context) && concluded_with(
                    *final(self),
                    a,
                    Err(DictationError::Inference { op: ForeignOp::DefaultParams, code: event->Status_0 }),
                )
            } else {
                a == CallAction::Run { language: old(self).language, cleared_flags: QUIET_FLAGS_MASK }
                    && final(self).stage == Stage::AwaitRun
            },
            old(self).stage == Stage::AwaitRun && event is Status && event->Status_0 >= 0
                ==> final(self).stage == Stage::AfterRun,
            old(self).stage == Stage::AwaitRun && event is Status && event->Status_0 < 0
                ==> concluded_with(
                *final(self),
                a,
                Err(DictationError::Inference { op: ForeignOp::RunFull, code: event->Status_0 }),
            ),
            old(self).stage == Stage::AfterRun && event is Released ==> a == CallAction::GetResults
                && final(self).stage == Stage::AwaitResults,
            old(self).stage == Stage::AwaitResults && event is Status ==> if event->Status_0 < 0 {
                a == CallAction::Release(Slot::Context) && concluded_with(
                    *final(self),
                    a,
                    Err(DictationError::Inference { op: ForeignOp::GetResults, code: event->Status_0 }),
                )
            } else {
                a == CallAction::GetSize && final(self).stage == Stage::AwaitSize
            },
            old(self).stage == Stage::AwaitSize && event is Size ==> if event->status < 0 {
                a == CallAction::Release(Slot::Result) && concluded_with(
                    *final(self),
                    a,
                    Err(DictationError::Inference { op: ForeignOp::GetSize, code: event->status }),
                )
            } else if event->segments == 0 {
                a == CallAction::Release(Slot::Result) && concluded_with_text(
                    *final(self),
                    a,
                    Seq::<char>::empty(),
                )
            } else {
                a == CallAction::ReadSegments(event->segments) && final(self).stage
                    == Stage::AwaitSegments
            },
            old(self).stage == Stage::AwaitSegments && event is Segments ==> a
                == CallAction::Release(Slot::Result) && concluded_with_text(
                *final(self),
                a,
                segments_text_of(event->Segments_0@),
            ),
            old(self).stage == Stage::Releasing ==> concluded_with(
                *final(self),
                a,
                old(self).outcome->Some_0,
            ),
            old(self).stage == Stage::Finished ==> *final(self) == *old(self) && a
                == CallAction::Finish(Err(DictationError::OutOfOrder)),
    {
        let stage = self.stage;
        match stage {
            Stage::Start => match event {
                CallEvent::Begin => {
                    if self.sample_count == 0 {
                        self.conclude(Err(DictationError::NoAudio))
                    } else {
                        self.stage = Stage::AwaitContext;
                        CallAction::CreateContext
                    }
                },
                _ => self.conclude(Err(DictationError::OutOfOrder)),
            },
            Stage::AwaitContext => match event {
                CallEvent::Status(status) => match check_status(ForeignOp::CreateContext, status) {
                    Err(e) => self.conclude(Err(e)),
                    Ok(()) => {
                        self.context = Hold::Held;
                        self.stage = Stage::AwaitParams;
                        CallAction::DefaultParams { strategy: SamplingStrategy::Greedy }
                    },
                },
                _ => self.conclude(Err(DictationError::OutOfOrder)),
            },
            Stage::AwaitParams => match event {
                CallEvent::Status(status) => match check_status(ForeignOp::DefaultParams, status) {
                    Err(e) => self.conclude(Err(e)),
                    Ok(()) => {
                        self.audio = Hold::Held;
                        self.stage = Stage::AwaitRun;
                        CallAction::Run { language: self.language, cleared_flags: QUIET_FLAGS_MASK }
                    },
                },
                _ => self.conclude(Err(DictationError::OutOfOrder)),
            },
            Stage::AwaitRun => {
                // The run call has returned: the host drops its own reference
                // to the audio object before anything else.
                match event {
                    CallEvent::Status(status) => match check_status(ForeignOp::RunFull, status) {
                        Err(e) => self.conclude(Err(e)),
                        Ok(()) => {
                            self.audio = Hold::Released;
                            self.stage = Stage::AfterRun;
                            CallAction::Release(Slot::Audio)
                        },
                    },
                    _ => self.conclude(Err(DictationError::OutOfOrder)),
                }
            },
            Stage::AfterRun => match event {
                CallEvent::Released => {
                    self.stage = Stage::AwaitResults;
                    CallAction::GetResults
                },
                _ => self.conclude(Err(DictationError::OutOfOrder)),
            },
            Stage::AwaitResults => match event {
                CallEvent::Status(status) => match check_status(ForeignOp::GetResults, status) {
                    Err(e) => self.conclude(Err(e)),
                    Ok(()) => {
                        self.result = Hold::Held;
                        self.stage = Stage::AwaitSize;
                        CallAction::GetSize
                    },
                },
                _ => self.conclude(Err(DictationError::OutOfOrder)),
            },
            Stage::AwaitSize => match event {
                CallEvent::Size { status, segments } => match check_status(
                    ForeignOp::GetSize,
                    status,
                ) {
                    Err(e) => self.conclude(Err(e)),
                    Ok(()) => {
                        if segments == 0 {
                            self.conclude(Ok(String::new()))
                        } else {
                            self.stage = Stage::AwaitSegments;
                            CallAction::ReadSegments(segments)
                        }
                    },
                },
                _ => self.conclude(Err(DictationError::OutOfOrder)),
            },
            Stage::AwaitSegments => match event {
                CallEvent::Segments(texts) => {
                    let text = segments_text(&texts);
                    self.conclude(Ok(text))
                },
                _ => self.conclude(Err(DictationError::OutOfOrder)),
            },
            Stage::Releasing => self.release_next(),
            Stage::Finished => CallAction::Finish(Err(DictationError::OutOfOrder)),
        }
    }
}

/// Reference count of an object after an acquire, from the count before it.
pub fn count_after_acquire(previous: u32) -> (r: u32)
    requires
        previous < u32::MAX,
    ensures
        r == previous + 1,
{
    previous + 1
}

/// Reference count of an object after a release, from the count before it,
/// and whether the object must now be freed: exactly when the count reaches zero.
pub fn count_after_release(previous: u32) -> (r: (u32, bool))
    requires
        previous > 0,
    ensures
        r.0 == previous - 1,
        r.1 == (previous == 1),
{
    (previous - 1, previous == 1)
}

/// Number of actions that release `slot`.
pub open spec fn release_count(actions: Seq<CallAction>, slot: Slot) -> nat
    decreases actions.len(),
{
    if actions.len() == 0 {
        0
    } else {
        release_count(actions.drop_last(), slot) + if released_by(actions.last()) == Some(slot) {
            1nat
        } else {
            0nat
        }
    }
}

proof fn lemma_release_count_tracks_hold(
    states: Seq<TranscribeCall>,
    actions: Seq<CallAction>,
    slot: Slot,
)
    requires
        states.len() == actions.len() + 1,
        hold_of(states[0], slot) == Hold::Absent,
        forall|i: int|
            0 <= i < actions.len() ==> release_step_ok(
                #[trigger] states[i],
                states[i + 1],
                actions[i],
            ),
    ensures
        release_count(actions, slot) == if hold_of(states.last(), slot) == Hold::Released {
            1nat
        } else {
            0nat
        },
    decreases actions.len(),
{
    if actions.len() > 0 {
        let n = actions.len() as int;
        let shorter = states.drop_last();
        assert forall|i: int| 0 <= i < actions.drop_last().len() implies release_step_ok(
            #[trigger] shorter[i],
            shorter[i + 1],
            actions.drop_last()[i],
        ) by {
            assert(shorter[i] == states[i]);
            assert(shorter[i + 1] == states[i + 1]);
        }
        lemma_release_count_tracks_hold(shorter, actions.drop_last(), slot);
        assert(release_step_ok(states[n - 1], states[n], actions[n - 1]));
        assert(hold_of(states[n], slot) == Hold::Released ==> hold_of(states[n], slot)
            == Hold::Released);
    }
}

proof fn lemma_obtained_stays_obtained(
    states: Seq<TranscribeCall>,
    actions: Seq<CallAction>,
    slot: Slot,
    i: int,
)
    requires
        states.len() == actions.len() + 1,
        0 <= i < states.len(),
        hold_of(states[i], slot) != Hold::Absent,
        forall|k: int|
            0 <= k < actions.len() ==> release_step_ok(
                #[trigger] states[k],
                states[k + 1],
                actions[k],
            ),
    ensures
        hold_of(states.last(), slot) != Hold::Absent,
    decreases states.len() - i,
{
    if i < states.len() - 1 {
        assert(release_step_ok(states[i], states[i + 1], actions[i]));
        if released_by(actions[i]) == Some(slot) {
            assert(hold_of(states[i + 1], slot) == Hold::Released || hold_of(states[i], slot)
                == Hold::Released);
        }
        lemma_obtained_stays_obtained(states, actions, slot, i + 1);
    }
}

/// Every object a transcription call obtains is released at most once over
/// the whole call, and exactly once when the call finishes: `states` are the
/// successive states of a call that starts without the object, and
/// `actions[i]` is what the step from `states[i]` to `states[i + 1]` asked.
pub proof fn lemma_released_exactly_once(
    states: Seq<TranscribeCall>,
    actions: Seq<CallAction>,
    slot: Slot,
)
    requires
        states.len() == actions.len() + 1,
        hold_of(states[0], slot) == Hold::Absent,
        forall|i: int|
            0 <= i < actions.len() ==> release_step_ok(
                #[trigger] states[i],
                states[i + 1],
                actions[i],
            ),
    ensures
        release_count(actions, slot) <= 1,
        states.last().stage == Stage::Finished && hold_of(states.last(), slot) != Hold::Absent
            ==> release_count(actions, slot) == 1,
        forall|i: int|
            0 <= i < states.len() && #[trigger] hold_of(states[i], slot) != Hold::Absent
                && states.last().stage == Stage::Finished ==> release_count(actions, slot) == 1,
{
    lemma_release_count_tracks_hold(states, actions, slot);
    assert forall|i: int| 0 <= i < states.len() && #[trigger] hold_of(states[i], slot) != Hold::Absent
        implies hold_of(states.last(), slot) != Hold::Absent by {
        lemma_obtained_stays_obtained(states, actions, slot, i);
    }
    if states.last().stage == Stage::Finished {
        let last = states.last();
        if actions.len() > 0 {
            let n = actions.len() as int;
            assert(release_step_ok(states[n - 1], states[n], actions[n - 1]));
            assert(hold_of(last, slot) != Hold::Held);
        } else {
            assert(hold_of(last, slot) == Hold::Absent);
        }
    }
}

/// While the run call has not returned, the host still holds its own
/// reference to the audio object, so its count cannot reach zero; the step
/// on the run's return releases that reference before anything else.
pub proof fn lemma_audio_outlives_run(call: TranscribeCall)
    requires
        call.wf(),
        call.stage == Stage::AwaitRun,
    ensures
        hold_of(call, Slot::Audio) == Hold::Held,
{
}

/// Once a call has decided its outcome `o`, every later step only releases
/// what is held, and the call finishes with exactly `o`: `states` are the
/// successive states of a call from the decision on, none finished before
/// its last step, and `actions[i]` is what the step from `states[i]` asked.
pub proof fn lemma_decided_outcome_kept(
    states: Seq<TranscribeCall>,
    actions: Seq<CallAction>,
    o: Result<String, DictationError>,
)
    requires
        states.len() == actions.len() + 1,
        states[0].stage == Stage::Releasing,
        states[0].outcome == Some(o),
        forall|i: int|
            0 <= i < actions.len() ==> #[trigger] states[i].stage != Stage::Finished,
        forall|i: int|
            0 <= i < actions.len() && states[i].stage == Stage::Releasing ==> concluded_with(
                states[i + 1],
                #[trigger] actions[i],
                states[i].outcome->Some_0,
            ),
    ensures
        forall|i: int|
            0 <= i < actions.len() ==> #[trigger] states[i].outcome == Some(o) && states[i].stage
                == Stage::Releasing,
        forall|i: int| 0 <= i < actions.len() - 1 ==> #[trigger] actions[i] is Release,
        actions.len() > 0 && states.last().stage == Stage::Finished ==> actions.last()
            == CallAction::Finish(o),
    decreases actions.len(),
{
    if actions.len() > 0 {
        let n = actions.len() as int;
        let fs = states.drop_last();
        let fa = actions.drop_last();
        assert forall|i: int| 0 <= i < fa.len() implies #[trigger] fs[i].stage != Stage::Finished by {
            assert(fs[i] == states[i]);
        }
        assert forall|i: int|
            0 <= i < fa.len() && fs[i].stage == Stage::Releasing implies concluded_with(
                fs[i + 1],
                #[trigger] fa[i],
                fs[i].outcome->Some_0,
            ) by {
            assert(fs[i] == states[i] && fs[i + 1] == states[i + 1] && fa[i] == actions[i]);
        }
        lemma_decided_outcome_kept(fs, fa, o);
        assert forall|i: int| 0 <= i < n implies #[trigger] states[i].outcome == Some(o)
            && states[i].stage == Stage::Releasing by {
            if i < n - 1 {
                assert(fs[i] == states[i]);
            } else if i > 0 {
                assert(fs[i - 1] == states[i - 1]);
                assert(states[i - 1].stage == Stage::Releasing);
                assert(concluded_with(states[i], actions[i - 1], states[i - 1].outcome->Some_0));
                assert(states[i].stage != Stage::Finished);
            }
        }
        assert forall|i: int| 0 <= i < n - 1 implies #[trigger] actions[i] is Release by {
            assert(concluded_with(states[i + 1], actions[i], states[i].outcome->Some_0));
            assert(states[i + 1].stage != Stage::Finished);
        }
        assert(concluded_with(states[n], actions[n - 1], states[n - 1].outcome->Some_0));
    }
}

} // verus!

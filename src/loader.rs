//! Loading the foreign library and its model once, and serving later calls
//! from the cache.
//!
//! The host performs each file check, library open, export lookup and model
//! load; this module decides the order, the fallback export name, and that
//! the cache is filled only when every step succeeded.
use vstd::prelude::*;
use vstd::string::*;
use crate::error::{check_status, DictationError, ForeignOp, LoadFault};

verus! {

/// The model-load export under its plain name.
pub fn plain_export_name() -> (r: &'static str)
    ensures
        r@ == "loadModel"@,
{
    "loadModel"
}

/// The model-load export under its decorated name.
pub fn decorated_export_name() -> (r: &'static str)
    ensures
        r@ == "?loadModel@Whisper@@YAJPEBGAEBUsModelSetup@1@PEBUsLoadModelCallbacks@1@PEAPEAUiModel@1@@Z"@,
{
    "?loadModel@Whisper@@YAJPEBGAEBUsModelSetup@1@PEBUsLoadModelCallbacks@1@PEAPEAUiModel@1@@Z"
}

/// A configured path counts when it is set and not empty.
pub fn configured_path(configured: &Option<String>) -> (r: Option<String>)
    ensures
        match configured {
            Some(p) => if p@.len() > 0 {
                r == Some(*p)
            } else {
                r is None
            },
            None => r is None,
        },
{
    match configured {
        Some(p) => {
            if p.as_str().unicode_len() > 0 {
                Some(p.clone())
            } else {
                None
            }
        },
        None => None,
    }
}

/// Where a load stands.
#[derive(Clone, Copy, Debug, PartialEq, Eq, Structural)]
pub enum LoadStage {
    Start,
    CheckingLibrary,
    OpeningLibrary,
    FindingPlainExport,
    FindingDecoratedExport,
    CheckingModel,
    LoadingModel,
    Done,
}

/// What the host reports.
#[derive(Clone, Copy, Debug, PartialEq, Eq, Structural)]
pub enum LoadEvent {
    /// The load is requested; `cached` tells whether a model is already cached.
    Begin { cached: bool },
    /// Outcome of the last check, open or lookup.
    Succeeded(bool),
    /// Status of the foreign model-load call.
    Status(i32),
}

/// What the host does next.
#[derive(Debug)]
pub enum LoadAction {
    /// Check that the library file exists.
    CheckLibrary,
    /// Open the library.
    OpenLibrary,
    /// Look up the model-load export under its plain name.
    FindPlainExport,
    /// Look up the model-load export under its decorated name.
    FindDecoratedExport,
    /// Check that the model file exists.
    CheckModel,
    /// Call the export with the model path and the default setup.
    LoadModel,
    /// Cache the library and the model: the load succeeded.
    Store,
    /// Nothing to load: a model is cached.
    AlreadyLoaded,
    /// The load failed; drop whatever was opened and cache nothing.
    Fail(DictationError),
}

/// One load of the library and model.
#[derive(Clone, Copy, Debug)]
pub struct ModelLoad {
    pub stage: LoadStage,
}

impl ModelLoad {
    pub fn new() -> (r: ModelLoad)
        ensures
            r.stage == LoadStage::Start,
    {
        ModelLoad { stage: LoadStage::Start }
    }

    fn fail(&mut self, e: DictationError) -> (a: LoadAction)
        ensures
            final(self).stage == LoadStage::Done,
            a == LoadAction::Fail(e),
    {
        self.stage = LoadStage::Done;
        LoadAction::Fail(e)
    }

    /// Advances the load on the host's report. The cache is filled
    /// (`Store`) only on a successful model load after every earlier step
    /// succeeded; any event the stage does not expect fails the load.
    pub fn step(&mut self, event: LoadEvent) -> (a: LoadAction)
        ensures
            a == LoadAction::Store ==> old(self).stage == LoadStage::LoadingModel && event is Status
                && event->Status_0 >= 0,
            old(self).stage == LoadStage::Start && event is Begin ==> if event->cached {
                a == LoadAction::AlreadyLoaded && final(self).stage == LoadStage::Done
            } else {
                a == LoadAction::CheckLibrary && final(self).stage == LoadStage::CheckingLibrary
            },
            old(self).stage == LoadStage::CheckingLibrary && event is Succeeded ==> if event->Succeeded_0 {
                a == LoadAction::OpenLibrary && final(self).stage == LoadStage::OpeningLibrary
            } else {
                a == LoadAction::Fail(DictationError::Load(LoadFault::LibraryMissing))
            },
            old(self).stage == LoadStage::OpeningLibrary && event is Succeeded ==> if event->Succeeded_0 {
                a == LoadAction::FindPlainExport && final(self).stage == LoadStage::FindingPlainExport
            } else {
                a == LoadAction::Fail(DictationError::Load(LoadFault::LibraryUnloadable))
            },
            old(self).stage == LoadStage::FindingPlainExport && event is Succeeded ==> if event->Succeeded_0 {
                a == LoadAction::CheckModel && final(self).stage == LoadStage::CheckingModel
            } else {
                a == LoadAction::FindDecoratedExport && final(self).stage
                    == LoadStage::FindingDecoratedExport
            },
            old(self).stage == LoadStage::FindingDecoratedExport && event is Succeeded ==> if event->Succeeded_0 {
                a == LoadAction::CheckModel && final(self).stage == LoadStage::CheckingModel
            } else {
                a == LoadAction::Fail(DictationError::Load(LoadFault::ExportMissing))
            },
            old(self).stage == LoadStage::CheckingModel && event is Succeeded ==> if event->Succeeded_0 {
                a == LoadAction::LoadModel && final(self).stage == LoadStage::LoadingModel
            } else {
                a == LoadAction::Fail(DictationError::Load(LoadFault::ModelMissing))
            },
            old(self).stage == LoadStage::LoadingModel && event is Status ==> if event->Status_0 < 0 {
                a == LoadAction::Fail(
                    DictationError::Inference { op: ForeignOp::LoadModel, code: event->Status_0 },
                )
            } else {
                a == LoadAction::Store
            },
            !(old(self).stage == LoadStage::Start && event is Begin) && !((old(self).stage
                == LoadStage::CheckingLibrary || old(self).stage == LoadStage::OpeningLibrary
                || old(self).stage == LoadStage::FindingPlainExport || old(self).stage
                == LoadStage::FindingDecoratedExport || old(self).stage == LoadStage::CheckingModel)
                && event is Succeeded) && !(old(self).stage == LoadStage::LoadingModel
                && event is Status) ==> a == LoadAction::Fail(DictationError::OutOfOrder),
            a is Fail || a == LoadAction::Store || a == LoadAction::AlreadyLoaded <==> final(self).stage
                == LoadStage::Done,
            old(self).stage == LoadStage::Done ==> final(self).stage == LoadStage::Done,
    {
        match (self.stage, event) {
            (LoadStage::Start, LoadEvent::Begin { cached }) => {
                if cached {
                    self.stage = LoadStage::Done;
                    LoadAction::AlreadyLoaded
                } else {
                    self.stage = LoadStage::CheckingLibrary;
                    LoadAction::CheckLibrary
                }
            },
            (LoadStage::CheckingLibrary, LoadEvent::Succeeded(ok)) => {
                if ok {
                    self.stage = LoadStage::OpeningLibrary;
                    LoadAction::OpenLibrary
                } else {
                    self.fail(DictationError::Load(LoadFault::LibraryMissing))
                }
            },
            (LoadStage::OpeningLibrary, LoadEvent::Succeeded(ok)) => {
                if ok {
                    self.stage = LoadStage::FindingPlainExport;
                    LoadAction::FindPlainExport
                } else {
                    self.fail(DictationError::Load(LoadFault::LibraryUnloadable))
                }
            },
            (LoadStage::FindingPlainExport, LoadEvent::Succeeded(ok)) => {
                if ok {
                    self.stage = LoadStage::CheckingModel;
                    LoadAction::CheckModel
                } else {
                    self.stage = LoadStage::FindingDecoratedExport;
                    LoadAction::FindDecoratedExport
                }
            },
            (LoadStage::FindingDecoratedExport, LoadEvent::Succeeded(ok)) => {
                if ok {
                    self.stage = LoadStage::CheckingModel;
                    LoadAction::CheckModel
                } else {
                    self.fail(DictationError::Load(LoadFault::ExportMissing))
                }
            },
            (LoadStage::CheckingModel, LoadEvent::Succeeded(ok)) => {
                if ok {
                    self.stage = LoadStage::LoadingModel;
                    LoadAction::LoadModel
                } else {
                    self.fail(DictationError::Load(LoadFault::ModelMissing))
                }
            },
            (LoadStage::LoadingModel, LoadEvent::Status(status)) => {
                match check_status(ForeignOp::LoadModel, status) {
                    Ok(()) => {
                        self.stage = LoadStage::Done;
                        LoadAction::Store
                    },
                    Err(e) => self.fail(e),
                }
            },
            _ => self.fail(DictationError::OutOfOrder),
        }
    }
}

/// UTF-16 code units of one character.
pub open spec fn utf16_of(c: char) -> Seq<u16> {
    let u = c as u32 as int;
    if u < 0x1_0000 {
        seq![u as u16]
    } else {
        seq![(0xD800 + (u - 0x1_0000) / 0x400) as u16, (0xDC00 + (u - 0x1_0000) % 0x400) as u16]
    }
}

/// UTF-16 code units of a text.
pub open spec fn utf16_units(s: Seq<char>) -> Seq<u16>
    decreases s.len(),
{
    if s.len() == 0 {
        Seq::empty()
    } else {
        utf16_units(s.drop_last()) + utf16_of(s.last())
    }
}

/// A path as the NUL-terminated wide string the model-load export takes.
pub fn wide_path(path: &str) -> (r: Vec<u16>)
    ensures
        r@ == utf16_units(path@).push(0u16),
{
    let n = path.unicode_len();
    let mut out: Vec<u16> = Vec::new();
    let mut i: usize = 0;
    while i < n
        invariant
            n == path@.len(),
            i <= n,
            out@ == utf16_units(path@.subrange(0, i as int)),
        decreases n - i,
    {
        let c = path.get_char(i);
        let u = c as u32;
        proof {
            assert(u <= 0x10ffff) by {
                assert(c as u32 <= 0x10ffff);
            }
        }
        if u < 0x1_0000 {
            out.push(u as u16);
        } else {
            let v = u - 0x1_0000;
            out.push((0xD800 + v / 0x400) as u16);
            out.push((0xDC00 + v % 0x400) as u16);
        }
        assert(path@.subrange(0, i + 1).drop_last() =~= path@.subrange(0, i as int));
        assert(out@ =~= utf16_units(path@.subrange(0, i + 1)));
        i = i + 1;
    }
    assert(path@.subrange(0, n as int) =~= path@);
    out.push(0u16);
    out
}

} // verus!

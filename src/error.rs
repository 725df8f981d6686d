//! The failures the library reports.
use vstd::prelude::*;

verus! {

/// A call into the foreign inference library.
#[derive(Clone, Copy, Debug, PartialEq, Eq)]
pub enum ForeignOp {
    LoadModel,
    CreateContext,
    DefaultParams,
    RunFull,
    GetResults,
    GetSize,
}

/// Why the foreign library or its model could not be loaded.
#[derive(Clone, Copy, Debug, PartialEq, Eq)]
pub enum LoadFault {
    /// The library file does not exist.
    LibraryMissing,
    /// The library exists but could not be opened.
    LibraryUnloadable,
    /// Neither the plain nor the decorated model-load export was found.
    ExportMissing,
    /// The model file does not exist.
    ModelMissing,
}

/// Everything that can go wrong between capture and text.
#[derive(Clone, Debug, PartialEq, Eq)]
pub enum DictationError {
    /// No input device, or the capture stream could not be opened.
    Device(String),
    /// The foreign library or the model failed to load.
    Load(LoadFault),
    /// A foreign call returned a failure status.
    Inference { op: ForeignOp, code: i32 },
    /// The recording held no samples.
    NoAudio,
    /// The backend could not be reached or answered with a failure.
    Transport(String),
    /// The backend needs a credential that is not configured.
    MissingCredential,
    /// The host reported an event that the current step does not expect.
    OutOfOrder,
}

/// Maps a foreign status: negative values are failures and carry the raw code.
pub fn check_status(op: ForeignOp, status: i32) -> (r: Result<(), DictationError>)
    ensures
        status >= 0 <==> r is Ok,
        status < 0 ==> r == Err::<(), DictationError>(DictationError::Inference { op, code: status }),
{
    if status < 0 {
        Err(DictationError::Inference { op, code: status })
    } else {
        Ok(())
    }
}

} // verus!

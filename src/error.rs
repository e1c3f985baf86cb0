use vstd::prelude::*;

verus! {

/// Why a run of the pipeline stopped. Every kind is fatal to the run.
#[derive(Clone, Copy, Debug, PartialEq, Eq, Structural)]
pub enum PatchError {
    /// No platform cache base could be determined.
    InvalidHome,
    /// The cache directory given by the caller is not an absolute, existing directory.
    InvalidCache,
    /// The target is not an existing directory.
    InvalidTarget,
    /// The mirror answered with a status outside the success range.
    MirrorUnavailable(u16),
    /// The request to the mirror failed below the HTTP level.
    NetworkFailure,
    /// The archive could not be extracted.
    UnpackFailed,
    /// Creating, writing or copying on disk failed.
    FilesystemFailure,
}

/// The line that describes each kind of error.
pub open spec fn description(e: PatchError) -> Seq<char> {
    match e {
        PatchError::InvalidHome => "no platform cache directory could be determined"@,
        PatchError::InvalidCache => "the cache directory is not an absolute, existing directory"@,
        PatchError::InvalidTarget => "the target is not an existing directory"@,
        PatchError::MirrorUnavailable(_) => "the mirror did not answer with success"@,
        PatchError::NetworkFailure => "the request to the mirror failed"@,
        PatchError::UnpackFailed => "the archive could not be unpacked"@,
        PatchError::FilesystemFailure => "a filesystem operation failed"@,
    }
}

impl PatchError {
    /// A one-line description of the error.
    pub fn describe(&self) -> (r: &'static str)
        ensures
            r@ == description(*self),
            r@.len() > 0,
    {
        proof {
            reveal_strlit("no platform cache directory could be determined");
            reveal_strlit("the cache directory is not an absolute, existing directory");
            reveal_strlit("the target is not an existing directory");
            reveal_strlit("the mirror did not answer with success");
            reveal_strlit("the request to the mirror failed");
            reveal_strlit("the archive could not be unpacked");
            reveal_strlit("a filesystem operation failed");
        }
        match self {
            PatchError::InvalidHome => "no platform cache directory could be determined",
            PatchError::InvalidCache => "the cache directory is not an absolute, existing directory",
            PatchError::InvalidTarget => "the target is not an existing directory",
            PatchError::MirrorUnavailable(_) => "the mirror did not answer with success",
            PatchError::NetworkFailure => "the request to the mirror failed",
            PatchError::UnpackFailed => "the archive could not be unpacked",
            PatchError::FilesystemFailure => "a filesystem operation failed",
        }
    }
}

} // verus!

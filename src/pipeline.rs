use vstd::prelude::*;

use crate::error::PatchError;
use crate::layout::Layout;
use crate::paths::absolute;

verus! {

/// Where a run stands. Each stage waits for one event.
#[derive(Clone, Copy, Debug, PartialEq, Eq, Structural)]
pub enum Stage {
    /// Waiting to learn whether the target is an existing directory.
    CheckTarget,
    /// Waiting to learn whether the caller's cache directory exists.
    CheckCache,
    /// Waiting for the cache root to be created.
    PrepareCache,
    /// Waiting for the advisory lock on the cache root.
    Lock,
    /// Waiting to learn which of the archive and the unpacked tree exist.
    ProbeArtifacts,
    /// Waiting for the mirror's answer.
    Request,
    /// Waiting for the response body to be written to the archive.
    Save,
    /// Waiting to learn whether the unpacked tree exists.
    ProbeTree,
    /// Waiting for the archive to be extracted into place.
    Extract,
    /// Waiting for the target side of an asset subdirectory to exist.
    EnsureDest(usize),
    /// Waiting for the entries of an asset subdirectory to be copied.
    CopyEntries(usize),
    /// Every phase succeeded.
    Done,
    /// The run stopped with this error.
    Failed(PatchError),
}

/// What was observed after performing an action.
#[derive(Clone, Copy, Debug, PartialEq, Eq, Structural)]
pub enum Event {
    /// What was found at the inspected path.
    Entry { exists: bool, is_dir: bool },
    /// Which of the archive and the unpacked tree were found.
    Artifacts { archive: bool, tree: bool },
    /// The mirror answered with this HTTP status.
    Response { status: u16 },
    /// No HTTP answer could be obtained, or the body broke off while it was read.
    TransportFailed,
    /// Whether the requested work succeeded.
    Completed(bool),
}

/// The work a run asks for next.
#[derive(Debug)]
pub enum Action {
    /// Find out whether `path` exists and is a directory.
    InspectTarget { path: String },
    /// Find out whether `path` exists and is a directory.
    InspectCache { path: String },
    /// Create `path` with its missing ancestors unless it exists.
    CreateCache { path: String },
    /// Take an advisory lock on the file at `path`, held until the process
    /// ends, and report whether it was granted.
    Lock { path: String },
    /// Find out whether the archive and the unpacked tree exist.
    ProbeArtifacts { archive: String, tree: String },
    /// Send one GET to `url` and report the status without saving anything.
    Request { url: String },
    /// Stream the body of the last response into `path`; a body that breaks
    /// off is reported as a transport failure, a write that fails as a
    /// failed completion.
    Save { path: String },
    /// Find out whether the unpacked tree exists.
    ProbeTree { path: String },
    /// Extract `archive` into the fresh directory `staging`, then move
    /// `extracted` to `tree`.
    Extract { archive: String, staging: String, extracted: String, tree: String },
    /// Create `path` with its missing ancestors unless it exists.
    EnsureDir { path: String },
    /// Copy every top-level entry of `source` into `dest`, recursively,
    /// replacing entries of the same name when `overwrite` is set.
    CopyEntries { source: String, dest: String, overwrite: bool },
    /// Report success.
    Finish,
    /// Report the error and stop.
    Abort(PatchError),
}

/// What a destination directory holds after `CopyEntries` copied the
/// entries of `source` into it: a name of `source` holds the source's
/// content when `overwrite` is set; every other name keeps what it held.
pub open spec fn copied<C>(dest: Map<Seq<char>, C>, source: Map<Seq<char>, C>, overwrite: bool) -> Map<
    Seq<char>,
    C,
> {
    if overwrite {
        dest.union_prefer_right(source)
    } else {
        source.union_prefer_right(dest)
    }
}

/// A status in the success range.
pub open spec fn success(status: u16) -> bool {
    200 <= status <= 299
}

/// Whether `status` is in the success range.
pub fn is_success(status: u16) -> (r: bool)
    ensures
        r == success(status),
{
    200 <= status && status <= 299
}

/// The stage that merges the asset subdirectory at position `k`, or the end
/// when there is none.
pub open spec fn merge_from(k: int, n: nat) -> Stage {
    if 0 <= k < n {
        Stage::EnsureDest(k as usize)
    } else {
        Stage::Done
    }
}

/// One run of the pipeline: its paths and where it stands.
pub struct Pipeline {
    pub layout: Layout,
    pub stage: Stage,
}

impl Pipeline {
    /// The paths are derived as the layout states, and a merge stage names
    /// an existing asset subdirectory.
    pub open spec fn wf(self) -> bool {
        &&& self.layout.wf()
        &&& match self.stage {
            Stage::EnsureDest(k) => k < self.layout.len(),
            Stage::CopyEntries(k) => k < self.layout.len(),
            _ => true,
        }
    }

    /// The stage that `ev` leads to. An event that the stage does not wait
    /// for leaves it as it is.
    pub open spec fn next_stage(self, ev: Event) -> Stage {
        let n = self.layout.len();
        match self.stage {
            Stage::CheckTarget => match ev {
                Event::Entry { exists, is_dir } => if !(exists && is_dir) {
                    Stage::Failed(PatchError::InvalidTarget)
                } else if !self.layout.has_cache {
                    Stage::Failed(PatchError::InvalidHome)
                } else if self.layout.explicit {
                    Stage::CheckCache
                } else {
                    Stage::PrepareCache
                },
                _ => self.stage,
            },
            Stage::CheckCache => match ev {
                Event::Entry { exists, is_dir } => if exists && is_dir && absolute(
                    self.layout.cache@,
                ) {
                    Stage::PrepareCache
                } else {
                    Stage::Failed(PatchError::InvalidCache)
                },
                _ => self.stage,
            },
            Stage::PrepareCache => match ev {
                Event::Completed(ok) => if ok {
                    Stage::Lock
                } else {
                    Stage::Failed(PatchError::FilesystemFailure)
                },
                _ => self.stage,
            },
            Stage::Lock => match ev {
                Event::Completed(ok) => if ok {
                    Stage::ProbeArtifacts
                } else {
                    Stage::Failed(PatchError::FilesystemFailure)
                },
                _ => self.stage,
            },
            Stage::ProbeArtifacts => match ev {
                Event::Artifacts { archive, tree } => if archive || tree {
                    Stage::ProbeTree
                } else {
                    Stage::Request
                },
                _ => self.stage,
            },
            Stage::Request => match ev {
                Event::Response { status } => if success(status) {
                    Stage::Save
                } else {
                    Stage::Failed(PatchError::MirrorUnavailable(status))
                },
                Event::TransportFailed => Stage::Failed(PatchError::NetworkFailure),
                _ => self.stage,
            },
            Stage::Save => match ev {
                Event::Completed(ok) => if ok {
                    Stage::ProbeTree
                } else {
                    Stage::Failed(PatchError::FilesystemFailure)
                },
                Event::TransportFailed => Stage::Failed(PatchError::NetworkFailure),
                _ => self.stage,
            },
            Stage::ProbeTree => match ev {
                Event::Entry { exists, is_dir: _ } => if exists {
                    merge_from(0, n)
                } else {
                    Stage::Extract
                },
                _ => self.stage,
            },
            Stage::Extract => match ev {
                Event::Completed(ok) => if ok {
                    merge_from(0, n)
                } else {
                    Stage::Failed(PatchError::UnpackFailed)
                },
                _ => self.stage,
            },
            Stage::EnsureDest(k) => match ev {
                Event::Completed(ok) => if ok {
                    Stage::CopyEntries(k)
                } else {
                    Stage::Failed(PatchError::FilesystemFailure)
                },
                _ => self.stage,
            },
            Stage::CopyEntries(k) => match ev {
                Event::Completed(ok) => if ok {
                    merge_from(k + 1, n)
                } else {
                    Stage::Failed(PatchError::FilesystemFailure)
                },
                _ => self.stage,
            },
            Stage::Done => self.stage,
            Stage::Failed(_) => self.stage,
        }
    }

    /// Whether `a` is the action that the current stage asks for.
    pub open spec fn asks(self, a: Action) -> bool {
        let l = self.layout;
        match self.stage {
            Stage::CheckTarget => match a {
                Action::InspectTarget { path } => path@ == l.target@,
                _ => false,
            },
            Stage::CheckCache => match a {
                Action::InspectCache { path } => path@ == l.cache@,
                _ => false,
            },
            Stage::PrepareCache => match a {
                Action::CreateCache { path } => path@ == l.cache@,
                _ => false,
            },
            Stage::Lock => match a {
                Action::Lock { path } => path@ == l.lock@,
                _ => false,
            },
            Stage::ProbeArtifacts => match a {
                Action::ProbeArtifacts { archive, tree } => archive@ == l.archive@ && tree@
                    == l.tree@,
                _ => false,
            },
            Stage::Request => match a {
                Action::Request { url } => url@ == l.config.mirror_url@,
                _ => false,
            },
            Stage::Save => match a {
                Action::Save { path } => path@ == l.archive@,
                _ => false,
            },
            Stage::ProbeTree => match a {
                Action::ProbeTree { path } => path@ == l.tree@,
                _ => false,
            },
            Stage::Extract => match a {
                Action::Extract { archive, staging, extracted, tree } => archive@ == l.archive@
                    && staging@ == l.staging@ && extracted@ == l.extracted@ && tree@ == l.tree@,
                _ => false,
            },
            Stage::EnsureDest(k) => match a {
                Action::EnsureDir { path } => path@ == l.dests@[k as int]@,
                _ => false,
            },
            Stage::CopyEntries(k) => match a {
                Action::CopyEntries { source, dest, overwrite } => source@ == l.sources@[k as int]@
                    && dest@ == l.dests@[k as int]@ && overwrite,
                _ => false,
            },
            Stage::Done => a is Finish,
            Stage::Failed(e) => match a {
                Action::Abort(e2) => e2 == e,
                _ => false,
            },
        }
    }

    /// The run after `ev`.
    pub open spec fn advanced(self, ev: Event) -> Pipeline {
        Pipeline { layout: self.layout, stage: self.next_stage(ev) }
    }

    /// A run over `layout` that starts by checking the target.
    pub fn new(layout: Layout) -> (r: Pipeline)
        requires
            layout.wf(),
        ensures
            r.wf(),
            r.layout == layout,
            r.stage == Stage::CheckTarget,
    {
        Pipeline { layout, stage: Stage::CheckTarget }
    }

    /// The outcome of a finished run.
    pub fn outcome(&self) -> (r: Option<Result<(), PatchError>>)
        ensures
            self.stage is Done ==> r == Some(Ok::<(), PatchError>(())),
            (forall|e: PatchError| self.stage == Stage::Failed(e) ==> r == Some(Err::<(), PatchError>(e))),
            !(self.stage is Done || self.stage is Failed) ==> r is None,
    {
        match self.stage {
            Stage::Done => Some(Ok(())),
            Stage::Failed(e) => Some(Err(e)),
            _ => None,
        }
    }

    /// The work the current stage asks for.
    pub fn next_action(&self) -> (a: Action)
        requires
            self.wf(),
        ensures
            self.asks(a),
    {
        let l = &self.layout;
        match self.stage {
            Stage::CheckTarget => Action::InspectTarget { path: l.target.clone() },
            Stage::CheckCache => Action::InspectCache { path: l.cache.clone() },
            Stage::PrepareCache => Action::CreateCache { path: l.cache.clone() },
            Stage::Lock => Action::Lock { path: l.lock.clone() },
            Stage::ProbeArtifacts => Action::ProbeArtifacts {
                archive: l.archive.clone(),
                tree: l.tree.clone(),
            },
            Stage::Request => Action::Request { url: l.config.mirror_url.clone() },
            Stage::Save => Action::Save { path: l.archive.clone() },
            Stage::ProbeTree => Action::ProbeTree { path: l.tree.clone() },
            Stage::Extract => Action::Extract {
                archive: l.archive.clone(),
                staging: l.staging.clone(),
                extracted: l.extracted.clone(),
                tree: l.tree.clone(),
            },
            Stage::EnsureDest(k) => Action::EnsureDir { path: l.dests[k].clone() },
            Stage::CopyEntries(k) => Action::CopyEntries {
                source: l.sources[k].clone(),
                dest: l.dests[k].clone(),
                overwrite: true,
            },
            Stage::Done => Action::Finish,
            Stage::Failed(e) => Action::Abort(e),
        }
    }

    /// Moves the run on by what was observed after its last action.
    pub fn on_event(&mut self, ev: Event)
        requires
            old(self).wf(),
        ensures
            final(self).wf(),
            final(self).layout == old(self).layout,
            final(self).stage == old(self).next_stage(ev),
    {
        let n = self.layout.sources.len();
        let next = match self.stage {
            Stage::CheckTarget => match ev {
                Event::Entry { exists, is_dir } => {
                    if !(exists && is_dir) {
                        Stage::Failed(PatchError::InvalidTarget)
                    } else if !self.layout.has_cache {
                        Stage::Failed(PatchError::InvalidHome)
                    } else if self.layout.explicit {
                        Stage::CheckCache
                    } else {
                        Stage::PrepareCache
                    }
                },
                _ => self.stage,
            },
            Stage::CheckCache => match ev {
                Event::Entry { exists, is_dir } => {
                    if exists && is_dir && crate::paths::is_absolute(self.layout.cache.as_str()) {
                        Stage::PrepareCache
                    } else {
                        Stage::Failed(PatchError::InvalidCache)
                    }
                },
                _ => self.stage,
            },
            Stage::PrepareCache => match ev {
                Event::Completed(ok) => {
                    if ok {
                        Stage::Lock
                    } else {
                        Stage::Failed(PatchError::FilesystemFailure)
                    }
                },
                _ => self.stage,
            },
            Stage::Lock => match ev {
                Event::Completed(ok) => {
                    if ok {
                        Stage::ProbeArtifacts
                    } else {
                        Stage::Failed(PatchError::FilesystemFailure)
                    }
                },
                _ => self.stage,
            },
            Stage::ProbeArtifacts => match ev {
                Event::Artifacts { archive, tree } => {
                    if archive || tree {
                        Stage::ProbeTree
                    } else {
                        Stage::Request
                    }
                },
                _ => self.stage,
            },
            Stage::Request => match ev {
                Event::Response { status } => {
                    if is_success(status) {
                        Stage::Save
                    } else {
                        Stage::Failed(PatchError::MirrorUnavailable(status))
                    }
                },
                Event::TransportFailed => Stage::Failed(PatchError::NetworkFailure),
                _ => self.stage,
            },
            Stage::Save => match ev {
                Event::Completed(ok) => {
                    if ok {
                        Stage::ProbeTree
                    } else {
                        Stage::Failed(PatchError::FilesystemFailure)
                    }
                },
                Event::TransportFailed => Stage::Failed(PatchError::NetworkFailure),
                _ => self.stage,
            },
            Stage::ProbeTree => match ev {
                Event::Entry { exists, is_dir: _ } => {
                    if exists {
                        first_merge(n)
                    } else {
                        Stage::Extract
                    }
                },
                _ => self.stage,
            },
            Stage::Extract => match ev {
                Event::Completed(ok) => {
                    if ok {
                        first_merge(n)
                    } else {
                        Stage::Failed(PatchError::UnpackFailed)
                    }
                },
                _ => self.stage,
            },
            Stage::EnsureDest(k) => match ev {
                Event::Completed(ok) => {
                    if ok {
                        Stage::CopyEntries(k)
                    } else {
                        Stage::Failed(PatchError::FilesystemFailure)
                    }
                },
                _ => self.stage,
            },
            Stage::CopyEntries(k) => match ev {
                Event::Completed(ok) => {
                    if !ok {
                        Stage::Failed(PatchError::FilesystemFailure)
                    } else if k + 1 < n {
                        Stage::EnsureDest(k + 1)
                    } else {
                        Stage::Done
                    }
                },
                _ => self.stage,
            },
            Stage::Done => self.stage,
            Stage::Failed(_) => self.stage,
        };
        self.stage = next;
    }
}

/// Places a game directory in a storefront's library. Nothing is done yet:
/// the call always succeeds.
pub fn install(cache: &str, target: &str) -> (r: Result<(), PatchError>)
    ensures
        r == Ok::<(), PatchError>(()),
{
    Ok(())
}

/// The first merge stage of a run with `n` asset subdirectories.
fn first_merge(n: usize) -> (r: Stage)
    ensures
        r == merge_from(0, n as nat),
{
    if n > 0 {
        Stage::EnsureDest(0)
    } else {
        Stage::Done
    }
}

} // verus!

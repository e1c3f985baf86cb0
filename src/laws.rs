use vstd::prelude::*;

use crate::error::PatchError;
use crate::layout::{dest_path, Layout};
use crate::paths::absolute;
use crate::pipeline::{copied, merge_from, success, Action, Event, Pipeline, Stage};

verus! {

/// The run after the events of `evs`, in order.
pub open spec fn run(p: Pipeline, evs: Seq<Event>) -> Pipeline
    decreases evs.len(),
{
    if evs.len() == 0 {
        p
    } else {
        run(p.advanced(evs[0]), evs.drop_first())
    }
}

/// Whether the run passes through a stage that `f` picks, the stage it is
/// in now and the one it ends in included, while the events of `evs` arrive.
pub open spec fn visits(p: Pipeline, evs: Seq<Event>, f: spec_fn(Stage) -> bool) -> bool
    decreases evs.len(),
{
    f(p.stage) || (evs.len() > 0 && visits(p.advanced(evs[0]), evs.drop_first(), f))
}

/// The cache root of the layout can be used: one was found, and a directory
/// given by the caller is absolute.
pub open spec fn usable(l: Layout) -> bool {
    l.has_cache && (l.explicit ==> absolute(l.cache@))
}

/// The events of an opening in which the target is a directory, the
/// caller's cache directory (if any) is one too, and creating and locking
/// the cache root succeed.
pub open spec fn opening(l: Layout) -> Seq<Event> {
    if l.explicit {
        seq![
            Event::Entry { exists: true, is_dir: true },
            Event::Entry { exists: true, is_dir: true },
            Event::Completed(true),
            Event::Completed(true),
        ]
    } else {
        seq![
            Event::Entry { exists: true, is_dir: true },
            Event::Completed(true),
            Event::Completed(true),
        ]
    }
}

/// The events of a fetch and unpack on an empty cache: nothing found, the
/// mirror answers `status`, the body is saved, no tree is found, and the
/// extraction succeeds.
pub open spec fn fresh_fetch(status: u16) -> Seq<Event> {
    seq![
        Event::Artifacts { archive: false, tree: false },
        Event::Response { status },
        Event::Completed(true),
        Event::Entry { exists: false, is_dir: false },
        Event::Completed(true),
    ]
}

/// The events of a run that finds the unpacked tree but not the archive.
pub open spec fn tree_only() -> Seq<Event> {
    seq![
        Event::Artifacts { archive: false, tree: true },
        Event::Entry { exists: true, is_dir: true },
    ]
}

proof fn lemma_unfold(p: Pipeline, evs: Seq<Event>, f: spec_fn(Stage) -> bool)
    ensures
        evs.len() > 0 ==> run(p, evs) == run(p.advanced(evs[0]), evs.drop_first()),
        evs.len() > 0 ==> visits(p, evs, f) == (f(p.stage) || visits(
            p.advanced(evs[0]),
            evs.drop_first(),
            f,
        )),
        evs.len() == 0 ==> run(p, evs) == p,
        evs.len() == 0 ==> visits(p, evs, f) == f(p.stage),
{
}

/// A well-formed run stays well formed whatever it observes.
proof fn lemma_run_wf(p: Pipeline, evs: Seq<Event>)
    requires
        p.wf(),
    ensures
        run(p, evs).wf(),
        run(p, evs).layout == p.layout,
    decreases evs.len(),
{
    if evs.len() > 0 {
        lemma_run_wf(p.advanced(evs[0]), evs.drop_first());
    }
}

/// An opening in which every check and step succeeds brings a run with a
/// usable cache root to the fetch phase, through no stage that `f` picks
/// (when `f` picks none of the opening's stages).
pub proof fn lemma_opening(p: Pipeline, f: spec_fn(Stage) -> bool)
    requires
        p.wf(),
        p.stage is CheckTarget,
        usable(p.layout),
        !f(Stage::CheckTarget),
        !f(Stage::CheckCache),
        !f(Stage::PrepareCache),
        !f(Stage::Lock),
        !f(Stage::ProbeArtifacts),
    ensures
        run(p, opening(p.layout)).stage is ProbeArtifacts,
        run(p, opening(p.layout)).wf(),
        run(p, opening(p.layout)).layout == p.layout,
        !visits(p, opening(p.layout), f),
{
    let e = opening(p.layout);
    lemma_run_wf(p, e);
    let e1 = e.drop_first();
    let e2 = e1.drop_first();
    let e3 = e2.drop_first();
    let p1 = p.advanced(e[0]);
    let p2 = p1.advanced(e1[0]);
    let p3 = p2.advanced(e2[0]);
    lemma_unfold(p, e, f);
    lemma_unfold(p1, e1, f);
    lemma_unfold(p2, e2, f);
    lemma_unfold(p3, e3, f);
    if p.layout.explicit {
        let e4 = e3.drop_first();
        let p4 = p3.advanced(e3[0]);
        lemma_unfold(p4, e4, f);
        assert(p4.stage is ProbeArtifacts);
    } else {
        assert(p3.stage is ProbeArtifacts);
    }
}

/// From a stage past the fetch (or the unpack) phase a run never visits a
/// stage that lies before it.
pub proof fn lemma_visits_past(p: Pipeline, evs: Seq<Event>, f: spec_fn(Stage) -> bool)
    ensures
        past_fetch(p.stage) && (forall|s: Stage| past_fetch(s) ==> !f(s)) ==> !visits(p, evs, f),
        past_unpack(p.stage) && (forall|s: Stage| past_unpack(s) ==> !f(s)) ==> !visits(
            p,
            evs,
            f,
        ),
    decreases evs.len(),
{
    if evs.len() > 0 {
        lemma_step_keeps_past(p, evs[0]);
        lemma_visits_past(p.advanced(evs[0]), evs.drop_first(), f);
    }
}

/// A failed run visits no stage but the one it failed in.
pub proof fn lemma_failed_visits(p: Pipeline, evs: Seq<Event>, f: spec_fn(Stage) -> bool)
    requires
        p.stage is Failed,
        !f(p.stage),
    ensures
        !visits(p, evs, f),
    decreases evs.len(),
{
    if evs.len() > 0 {
        lemma_failed_visits(p.advanced(evs[0]), evs.drop_first(), f);
    }
}

/// The full pipeline on an empty cache. With a usable cache root, a mirror
/// that answers with success, and every step succeeding, the run downloads
/// and extracts once, creates and fills every asset subdirectory of the
/// target, and ends with success.
pub proof fn lemma_full_pipeline(p: Pipeline, status: u16)
    requires
        p.wf(),
        p.stage is CheckTarget,
        usable(p.layout),
        success(status),
    ensures
        run(p, opening(p.layout)).stage is ProbeArtifacts,
        run(run(p, opening(p.layout)), fresh_fetch(status)).stage == merge_from(
            0,
            p.layout.len(),
        ),
        visits(run(p, opening(p.layout)), fresh_fetch(status), |s: Stage| s is Save),
        visits(run(p, opening(p.layout)), fresh_fetch(status), |s: Stage| s is Extract),
        forall|k: int|
            0 <= k < p.layout.len() ==> #[trigger] visits(
                run(run(p, opening(p.layout)), fresh_fetch(status)),
                successes(2 * p.layout.len()),
                copies_into(k),
            ),
        run(run(run(p, opening(p.layout)), fresh_fetch(status)), successes(2 * p.layout.len())).stage is Done,
{
    let n = p.layout.len();
    lemma_opening(p, |s: Stage| false);
    let a = run(p, opening(p.layout));
    let e = fresh_fetch(status);
    lemma_run_wf(a, e);
    let e1 = e.drop_first();
    let e2 = e1.drop_first();
    let e3 = e2.drop_first();
    let e4 = e3.drop_first();
    let e5 = e4.drop_first();
    let a1 = a.advanced(e[0]);
    let a2 = a1.advanced(e1[0]);
    let a3 = a2.advanced(e2[0]);
    let a4 = a3.advanced(e3[0]);
    let a5 = a4.advanced(e4[0]);
    let save = |s: Stage| s is Save;
    let extract = |s: Stage| s is Extract;
    lemma_unfold(a, e, extract);
    lemma_unfold(a1, e1, extract);
    lemma_unfold(a2, e2, extract);
    lemma_unfold(a3, e3, extract);
    lemma_unfold(a4, e4, extract);
    lemma_unfold(a, e, save);
    lemma_unfold(a1, e1, save);
    lemma_unfold(a2, e2, save);
    lemma_unfold(a3, e3, save);
    lemma_unfold(a4, e4, save);
    lemma_unfold(a5, e5, save);
    assert(a2.stage is Save);
    assert(a4.stage is Extract);
    assert(run(a, e) == a5);
    lemma_merge_completes(a5, 0);
}

/// Unpacking is skipped on the tree alone. With a usable cache root, a run
/// that finds the unpacked tree but not the archive neither requests,
/// saves nor extracts anything, and with every merge step succeeding it
/// ends with success.
pub proof fn lemma_tree_only_run(p: Pipeline, later: Seq<Event>)
    requires
        p.wf(),
        p.stage is CheckTarget,
        usable(p.layout),
    ensures
        run(run(p, opening(p.layout)), tree_only()).stage == merge_from(0, p.layout.len()),
        !visits(p, opening(p.layout), |s: Stage| s is Request || s is Save || s is Extract),
        !visits(
            run(p, opening(p.layout)),
            tree_only(),
            |s: Stage| s is Request || s is Save || s is Extract,
        ),
        !visits(
            run(run(p, opening(p.layout)), tree_only()),
            later,
            |s: Stage| s is Request || s is Save || s is Extract,
        ),
        run(run(run(p, opening(p.layout)), tree_only()), successes(2 * p.layout.len())).stage is Done,
{
    let f = |s: Stage| s is Request || s is Save || s is Extract;
    lemma_opening(p, f);
    let a = run(p, opening(p.layout));
    let e = tree_only();
    lemma_run_wf(a, e);
    let e1 = e.drop_first();
    let e2 = e1.drop_first();
    let a1 = a.advanced(e[0]);
    let a2 = a1.advanced(e1[0]);
    lemma_unfold(a, e, f);
    lemma_unfold(a1, e1, f);
    lemma_unfold(a2, e2, f);
    assert(past_unpack(a2.stage));
    lemma_visits_past(a2, later, f);
    lemma_merge_completes(a2, 0);
}

/// A mirror that does not answer with success ends the run with
/// `MirrorUnavailable`: with a usable cache root and nothing cached, the run
/// sends one request, never saves an archive, never requests again, and
/// neither unpacks nor touches the target.
pub proof fn lemma_mirror_failure_run(p: Pipeline, status: u16, later: Seq<Event>)
    requires
        p.wf(),
        p.stage is CheckTarget,
        usable(p.layout),
        !success(status),
    ensures
        run(
            run(p, opening(p.layout)),
            seq![Event::Artifacts { archive: false, tree: false }, Event::Response { status }],
        ).stage == Stage::Failed(PatchError::MirrorUnavailable(status)),
        !visits(
            run(p, opening(p.layout)),
            seq![Event::Artifacts { archive: false, tree: false }, Event::Response { status }],
            |s: Stage| s is Save || s is Extract || s is EnsureDest || s is CopyEntries,
        ),
        !visits(
            run(
                run(p, opening(p.layout)),
                seq![Event::Artifacts { archive: false, tree: false }, Event::Response { status }],
            ),
            later,
            |s: Stage| s is Request || s is Save || s is Extract || s is EnsureDest
                || s is CopyEntries,
        ),
        run(
            run(
                run(p, opening(p.layout)),
                seq![Event::Artifacts { archive: false, tree: false }, Event::Response { status }],
            ),
            later,
        ).stage == Stage::Failed(PatchError::MirrorUnavailable(status)),
{
    let f = |s: Stage| s is Save || s is Extract || s is EnsureDest || s is CopyEntries;
    let g = |s: Stage| s is Request || s is Save || s is Extract || s is EnsureDest
        || s is CopyEntries;
    lemma_opening(p, f);
    let a = run(p, opening(p.layout));
    let e = seq![Event::Artifacts { archive: false, tree: false }, Event::Response { status }];
    let e1 = e.drop_first();
    let e2 = e1.drop_first();
    let a1 = a.advanced(e[0]);
    let a2 = a1.advanced(e1[0]);
    lemma_unfold(a, e, f);
    lemma_unfold(a1, e1, f);
    lemma_unfold(a2, e2, f);
    assert(a2.stage == Stage::Failed(PatchError::MirrorUnavailable(status)));
    lemma_failed_visits(a2, later, g);
    lemma_failed_stays(a2, later);
}

/// The fetch phase lies behind a run in this stage.
pub open spec fn past_fetch(s: Stage) -> bool {
    s is ProbeTree || s is Extract || past_unpack(s)
}

/// The unpack phase lies behind a run in this stage.
pub open spec fn past_unpack(s: Stage) -> bool {
    s is EnsureDest || s is CopyEntries || s is Done || s is Failed
}

proof fn lemma_step_keeps_past(p: Pipeline, ev: Event)
    ensures
        past_fetch(p.stage) ==> past_fetch(p.next_stage(ev)),
        past_unpack(p.stage) ==> past_unpack(p.next_stage(ev)),
{
}

/// Once the fetch (or the unpack) phase lies behind a run, no sequence of
/// events brings the run back to it.
pub proof fn lemma_phases_never_return(p: Pipeline, evs: Seq<Event>)
    ensures
        past_fetch(p.stage) ==> past_fetch(run(p, evs).stage),
        past_unpack(p.stage) ==> past_unpack(run(p, evs).stage),
    decreases evs.len(),
{
    if evs.len() > 0 {
        lemma_step_keeps_past(p, evs[0]);
        lemma_phases_never_return(p.advanced(evs[0]), evs.drop_first());
    }
}

/// Fetching is idempotent. With nothing cached, the fetch phase sends one
/// request and, on success, saves the body to the very archive path it
/// probes. A later run that finds that archive goes past the fetch phase at
/// once: whatever happens next it never requests or saves again, so the
/// archive keeps its bytes.
pub proof fn lemma_fetch_idempotent(p: Pipeline, status: u16, tree: bool, later: Seq<Event>)
    requires
        p.wf(),
        p.stage is ProbeArtifacts,
        success(status),
    ensures
        p.next_stage(Event::Artifacts { archive: false, tree: false }) is Request,
        p.advanced(Event::Artifacts { archive: false, tree: false }).next_stage(
            Event::Response { status },
        ) is Save,
        forall|a: Action|
            #[trigger] p.advanced(Event::Artifacts { archive: false, tree: false }).advanced(
                Event::Response { status },
            ).asks(a) ==> a is Save && a->Save_path@ == p.layout.archive@,
        forall|a: Action|
            #[trigger] p.asks(a) ==> a is ProbeArtifacts && a->ProbeArtifacts_archive@
                == p.layout.archive@,
        !(run(p.advanced(Event::Artifacts { archive: true, tree }), later).stage is Request),
        !(run(p.advanced(Event::Artifacts { archive: true, tree }), later).stage is Save),
{
    lemma_phases_never_return(p.advanced(Event::Artifacts { archive: true, tree }), later);
}

/// Unpacking is idempotent. A run that finds the unpacked tree goes past the
/// unpack phase at once, whether or not the archive is still there, and
/// never extracts afterwards.
pub proof fn lemma_unpack_idempotent(p: Pipeline, is_dir: bool, later: Seq<Event>)
    requires
        p.wf(),
        p.stage is ProbeTree,
    ensures
        p.next_stage(Event::Entry { exists: true, is_dir }) == merge_from(0, p.layout.len()),
        !(run(p.advanced(Event::Entry { exists: true, is_dir }), later).stage is Extract),
        !(run(p.advanced(Event::Entry { exists: true, is_dir }), later).stage is Request),
{
    lemma_phases_never_return(p.advanced(Event::Entry { exists: true, is_dir }), later);
}

/// A run that finds the unpacked tree but not the archive skips the fetch
/// phase: it does not download the archive again.
pub proof fn lemma_tree_skips_fetch(p: Pipeline, later: Seq<Event>)
    requires
        p.wf(),
        p.stage is ProbeArtifacts,
    ensures
        p.next_stage(Event::Artifacts { archive: false, tree: true }) is ProbeTree,
        !(run(p.advanced(Event::Artifacts { archive: false, tree: true }), later).stage is Request),
        !(run(p.advanced(Event::Artifacts { archive: false, tree: true }), later).stage is Save),
{
    lemma_phases_never_return(p.advanced(Event::Artifacts { archive: false, tree: true }), later);
}

/// Merging is additive. Every directory a run creates or copies into lies
/// at an asset subdirectory's path below the target, and a copy keeps every
/// entry of the destination whose name the source does not hold.
pub proof fn lemma_merge_additive<C>(
    p: Pipeline,
    a: Action,
    held: Map<Seq<char>, C>,
    source: Map<Seq<char>, C>,
    name: Seq<char>,
)
    requires
        p.wf(),
        p.asks(a),
        held.contains_key(name),
        !source.contains_key(name),
    ensures
        a is EnsureDir ==> exists|k: int|
            0 <= k < p.layout.len() && a->EnsureDir_path@ == dest_path(
                p.layout.config,
                p.layout.target@,
                k,
            ),
        a is CopyEntries ==> exists|k: int|
            0 <= k < p.layout.len() && a->CopyEntries_dest@ == dest_path(
                p.layout.config,
                p.layout.target@,
                k,
            ),
        a is CopyEntries ==> copied(held, source, a->CopyEntries_overwrite)[name] == held[name],
{
}

/// Merging overwrites. Each copy a run asks for replaces an entry of the
/// destination by the source's entry of the same name.
pub proof fn lemma_merge_overwrites<C>(
    p: Pipeline,
    a: Action,
    held: Map<Seq<char>, C>,
    source: Map<Seq<char>, C>,
    name: Seq<char>,
)
    requires
        p.wf(),
        p.asks(a),
        a is CopyEntries,
        source.contains_key(name),
    ensures
        a->CopyEntries_overwrite,
        copied(held, source, a->CopyEntries_overwrite).contains_key(name),
        copied(held, source, a->CopyEntries_overwrite)[name] == source[name],
{
}

/// Picks the stage that copies the asset subdirectory at position `k`.
pub open spec fn copies_into(k: int) -> spec_fn(Stage) -> bool {
    |s: Stage| s == Stage::CopyEntries(k as usize)
}

/// `m` reports of success.
pub open spec fn successes(m: nat) -> Seq<Event> {
    Seq::new(m, |i: int| Event::Completed(true))
}

/// A merge whose every step succeeds creates and fills each remaining asset
/// subdirectory in turn and ends the run with success.
pub proof fn lemma_merge_completes(p: Pipeline, k: int)
    requires
        p.wf(),
        0 <= k <= p.layout.len(),
        p.stage == merge_from(k, p.layout.len()),
    ensures
        run(p, successes(2 * (p.layout.len() - k) as nat)).stage is Done,
        forall|j: int|
            k <= j < p.layout.len() ==> #[trigger] visits(
                p,
                successes(2 * (p.layout.len() - k) as nat),
                copies_into(j),
            ),
    decreases p.layout.len() - k,
{
    let n = p.layout.len();
    let m = (2 * (n - k)) as nat;
    if k < n {
        let evs = successes(m);
        let q = p.advanced(evs[0]);
        let r = q.advanced(evs.drop_first()[0]);
        assert(q.stage == Stage::CopyEntries(k as usize));
        assert(r.stage == merge_from(k + 1, n));
        assert(evs.drop_first().drop_first() =~= successes((2 * (n - (k + 1))) as nat));
        assert(run(p, evs) == run(q, evs.drop_first()));
        assert(run(q, evs.drop_first()) == run(r, evs.drop_first().drop_first()));
        lemma_merge_completes(r, k + 1);
        assert forall|j: int| k <= j < n implies #[trigger] visits(p, evs, copies_into(j)) by {
            lemma_unfold(p, evs, copies_into(j));
            lemma_unfold(q, evs.drop_first(), copies_into(j));
        }
    } else {
        assert(successes(m) =~= Seq::<Event>::empty());
    }
}

/// A run that finds the target missing fails at once with `InvalidTarget`
/// and stays failed: it never reaches the mirror.
pub proof fn lemma_missing_target_stops(p: Pipeline, is_dir: bool, later: Seq<Event>)
    requires
        p.wf(),
        p.stage is CheckTarget,
    ensures
        p.next_stage(Event::Entry { exists: false, is_dir }) == Stage::Failed(
            PatchError::InvalidTarget,
        ),
        run(p.advanced(Event::Entry { exists: false, is_dir }), later).stage == Stage::Failed(
            PatchError::InvalidTarget,
        ),
{
    lemma_failed_stays(p.advanced(Event::Entry { exists: false, is_dir }), later);
}

/// A failed run stays failed with the same error, whatever is observed next.
pub proof fn lemma_failed_stays(p: Pipeline, evs: Seq<Event>)
    requires
        p.stage is Failed,
    ensures
        run(p, evs).stage == p.stage,
    decreases evs.len(),
{
    if evs.len() > 0 {
        lemma_failed_stays(p.advanced(evs[0]), evs.drop_first());
    }
}

} // verus!

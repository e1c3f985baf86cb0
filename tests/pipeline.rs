use std::collections::{BTreeMap, BTreeSet};

use lutwig::{
    install, is_absolute, is_success, join, Action, Config, Event, Layout, PatchError, Pipeline,
    Stage,
};

/// An in-memory disk and mirror that answer the pipeline's actions.
struct World {
    files: BTreeMap<String, Vec<u8>>,
    dirs: BTreeSet<String>,
    status: u16,
    transport_ok: bool,
    extract_ok: bool,
    fail_dir: Option<String>,
    locked: bool,
    requests: usize,
    extractions: usize,
    actions: Vec<String>,
}

impl World {
    fn new() -> World {
        let mut dirs = BTreeSet::new();
        dirs.insert("/t".to_string());
        World {
            files: BTreeMap::new(),
            dirs,
            status: 200,
            transport_ok: true,
            extract_ok: true,
            fail_dir: None,
            locked: false,
            requests: 0,
            extractions: 0,
            actions: Vec::new(),
        }
    }

    fn has(&self, p: &str) -> bool {
        self.dirs.contains(p) || self.files.contains_key(p)
    }

    fn answer(&mut self, a: &Action) -> Event {
        match a {
            Action::InspectTarget { path } | Action::InspectCache { path } => Event::Entry {
                exists: self.has(path),
                is_dir: self.dirs.contains(path),
            },
            Action::CreateCache { path } => {
                self.dirs.insert(path.clone());
                Event::Completed(true)
            }
            Action::Lock { .. } => Event::Completed(!self.locked),
            Action::ProbeArtifacts { archive, tree } => Event::Artifacts {
                archive: self.has(archive),
                tree: self.has(tree),
            },
            Action::Request { .. } => {
                self.requests += 1;
                if self.transport_ok {
                    Event::Response { status: self.status }
                } else {
                    Event::TransportFailed
                }
            }
            Action::Save { path } => {
                self.files.insert(path.clone(), b"archive".to_vec());
                Event::Completed(true)
            }
            Action::ProbeTree { path } => Event::Entry {
                exists: self.has(path),
                is_dir: self.dirs.contains(path),
            },
            Action::Extract { archive, tree, .. } => {
                self.extractions += 1;
                if !self.extract_ok || !self.files.contains_key(archive) {
                    return Event::Completed(false);
                }
                self.dirs.insert(tree.clone());
                for asset in Config::standard().assets.iter() {
                    let dir = format!("{}/RPGVXAce/{}", tree, asset);
                    self.dirs.insert(dir.clone());
                    self.files
                        .insert(format!("{}/sample", dir), asset.as_bytes().to_vec());
                }
                Event::Completed(true)
            }
            Action::EnsureDir { path } => {
                if self.fail_dir.as_deref() == Some(path.as_str()) {
                    return Event::Completed(false);
                }
                self.dirs.insert(path.clone());
                Event::Completed(true)
            }
            Action::CopyEntries { source, dest, overwrite } => {
                if !self.dirs.contains(source) {
                    return Event::Completed(false);
                }
                let prefix = format!("{}/", source);
                let copies: Vec<(String, Vec<u8>)> = self
                    .files
                    .iter()
                    .filter(|(k, _)| k.starts_with(&prefix))
                    .map(|(k, v)| (format!("{}/{}", dest, &k[prefix.len()..]), v.clone()))
                    .collect();
                for (k, v) in copies {
                    if *overwrite || !self.files.contains_key(&k) {
                        self.files.insert(k, v);
                    }
                }
                Event::Completed(true)
            }
            Action::Finish | Action::Abort(_) => Event::Completed(true),
        }
    }

    fn drive(&mut self, p: &mut Pipeline) -> Result<(), PatchError> {
        for _ in 0..1000 {
            if let Some(r) = p.outcome() {
                return r;
            }
            let a = p.next_action();
            self.actions.push(format!("{:?}", a));
            let ev = self.answer(&a);
            p.on_event(ev);
        }
        panic!("the run did not finish");
    }
}

fn pipeline(cache: Option<&str>, base: Option<&str>, target: &str) -> Pipeline {
    Pipeline::new(Layout::new(
        Config::standard(),
        target.to_string(),
        cache.map(|c| c.to_string()),
        base.map(|b| b.to_string()),
    ))
}

fn standard(target: &str) -> Pipeline {
    pipeline(None, Some("/home/u/.cache"), target)
}

#[test]
fn join_adds_one_separator() {
    assert_eq!(join("/a", "b/c"), "/a/b/c");
    assert_eq!(join("/a/", "b"), "/a/b");
    assert_eq!(join("", "b"), "/b");
}

#[test]
fn absolute_paths_start_at_root() {
    assert!(is_absolute("/a"));
    assert!(!is_absolute("a/b"));
    assert!(!is_absolute(""));
}

#[test]
fn success_statuses() {
    assert!(is_success(200));
    assert!(is_success(299));
    assert!(!is_success(199));
    assert!(!is_success(300));
    assert!(!is_success(503));
}

#[test]
fn standard_config_lists_sixteen_assets() {
    let c = Config::standard();
    assert_eq!(c.assets.len(), 16);
    assert_eq!(c.assets[0], "Audio/BGM");
    assert_eq!(c.assets[15], "Graphics/Titles2");
    assert_eq!(c.mirror_url, "https://archive.org/download/vxacertp.tar/vxacertp.tar.gz");
}

#[test]
fn layout_paths() {
    let l = Layout::new(Config::standard(), "/t".to_string(), Some("/c".to_string()), None);
    assert!(l.has_cache && l.explicit);
    assert_eq!(l.cache, "/c");
    assert_eq!(l.lock, "/c/.lock");
    assert_eq!(l.archive, "/c/vxacertp.tar.gz");
    assert_eq!(l.tree, "/c/vxacertp");
    assert_eq!(l.staging, "/c/.vxacertp.part");
    assert_eq!(l.extracted, "/c/.vxacertp.part/vxacertp");
    assert_eq!(l.sources[0], "/c/vxacertp/RPGVXAce/Audio/BGM");
    assert_eq!(l.dests[0], "/t/Audio/BGM");
    assert_eq!(l.dests[15], "/t/Graphics/Titles2");
}

#[test]
fn default_cache_is_namespaced_below_base() {
    let l = Layout::new(Config::standard(), "/t".to_string(), None, Some("/home/u/.cache/".to_string()));
    assert!(l.has_cache && !l.explicit);
    assert_eq!(l.cache, "/home/u/.cache/lutwig");
}

#[test]
fn full_pipeline_fills_every_asset_path() {
    let mut w = World::new();
    let mut p = standard("/t");
    assert_eq!(w.drive(&mut p), Ok(()));
    assert_eq!(w.requests, 1);
    let tree = "/home/u/.cache/lutwig/vxacertp";
    for asset in Config::standard().assets.iter() {
        let dest = format!("/t/{}", asset);
        assert!(w.dirs.contains(&dest));
        let copied = w.files.get(&format!("{}/sample", dest)).unwrap();
        let cached = w.files.get(&format!("{}/RPGVXAce/{}/sample", tree, asset)).unwrap();
        assert_eq!(copied, cached);
    }
    assert!(matches!(p.next_action(), Action::Finish));
}

#[test]
fn missing_target_fails_before_any_request() {
    let mut w = World::new();
    let mut p = standard("/missing");
    assert_eq!(w.drive(&mut p), Err(PatchError::InvalidTarget));
    assert_eq!(w.requests, 0);
    assert!(matches!(p.next_action(), Action::Abort(PatchError::InvalidTarget)));
}

#[test]
fn target_that_is_a_file_is_invalid() {
    let mut w = World::new();
    w.files.insert("/f".to_string(), vec![1]);
    let mut p = standard("/f");
    assert_eq!(w.drive(&mut p), Err(PatchError::InvalidTarget));
}

#[test]
fn mirror_503_fails_without_archive() {
    let mut w = World::new();
    w.status = 503;
    let mut p = standard("/t");
    assert_eq!(w.drive(&mut p), Err(PatchError::MirrorUnavailable(503)));
    assert_eq!(w.requests, 1);
    assert!(!w.files.contains_key("/home/u/.cache/lutwig/vxacertp.tar.gz"));
    assert!(w.actions.iter().all(|a| !a.starts_with("Save")));
}

#[test]
fn held_lock_stops_before_fetch() {
    let mut w = World::new();
    w.locked = true;
    let mut p = standard("/t");
    assert_eq!(w.drive(&mut p), Err(PatchError::FilesystemFailure));
    assert_eq!(w.requests, 0);
    assert!(w.actions.iter().any(|a| a.starts_with("Lock")));
}

#[test]
fn transport_failure_is_network_failure() {
    let mut w = World::new();
    w.transport_ok = false;
    let mut p = standard("/t");
    assert_eq!(w.drive(&mut p), Err(PatchError::NetworkFailure));
}

#[test]
fn second_fetch_makes_no_request() {
    let mut w = World::new();
    let mut first = standard("/t");
    assert_eq!(w.drive(&mut first), Ok(()));
    let archive = "/home/u/.cache/lutwig/vxacertp.tar.gz";
    let bytes = w.files.get(archive).cloned();
    w.transport_ok = false;
    let mut second = standard("/t");
    assert_eq!(w.drive(&mut second), Ok(()));
    assert_eq!(w.requests, 1);
    assert_eq!(w.files.get(archive).cloned(), bytes);
}

#[test]
fn second_unpack_skips_without_archive() {
    let mut w = World::new();
    let mut first = standard("/t");
    assert_eq!(w.drive(&mut first), Ok(()));
    w.files.remove("/home/u/.cache/lutwig/vxacertp.tar.gz");
    w.transport_ok = false;
    let mut second = standard("/t");
    assert_eq!(w.drive(&mut second), Ok(()));
    assert_eq!(w.extractions, 1);
    assert_eq!(w.requests, 1);
}

#[test]
fn present_tree_skips_fetch() {
    let mut w = World::new();
    w.dirs.insert("/home/u/.cache/lutwig/vxacertp".to_string());
    let mut p = standard("/t");
    w.transport_ok = false;
    let _ = w.drive(&mut p);
    assert_eq!(w.requests, 0);
    assert_eq!(w.extractions, 0);
}

#[test]
fn merge_leaves_unrelated_files() {
    let mut w = World::new();
    w.files.insert("/t/Game.exe".to_string(), b"game".to_vec());
    w.files.insert("/t/Data/Map001.rvdata2".to_string(), b"map".to_vec());
    let mut p = standard("/t");
    assert_eq!(w.drive(&mut p), Ok(()));
    assert_eq!(w.files.get("/t/Game.exe").unwrap(), b"game");
    assert_eq!(w.files.get("/t/Data/Map001.rvdata2").unwrap(), b"map");
}

#[test]
fn merge_overwrites_same_name() {
    let mut w = World::new();
    w.files.insert("/t/Fonts/sample".to_string(), b"old".to_vec());
    let mut p = standard("/t");
    assert_eq!(w.drive(&mut p), Ok(()));
    assert_eq!(w.files.get("/t/Fonts/sample").unwrap(), b"Fonts");
}

#[test]
fn merge_aborts_on_first_failure_and_keeps_earlier() {
    let mut w = World::new();
    w.fail_dir = Some("/t/Audio/SE".to_string());
    let mut p = standard("/t");
    assert_eq!(w.drive(&mut p), Err(PatchError::FilesystemFailure));
    assert!(w.files.contains_key("/t/Audio/ME/sample"));
    assert!(!w.dirs.contains("/t/Fonts"));
    assert_eq!(p.stage, Stage::Failed(PatchError::FilesystemFailure));
}

#[test]
fn missing_source_aborts_merge() {
    let mut w = World::new();
    w.dirs.insert("/home/u/.cache/lutwig/vxacertp".to_string());
    let mut p = standard("/t");
    assert_eq!(w.drive(&mut p), Err(PatchError::FilesystemFailure));
    assert!(w.dirs.contains("/t/Audio/BGM"));
    assert!(!w.dirs.contains("/t/Audio/BGS"));
}

#[test]
fn corrupt_archive_is_unpack_failure() {
    let mut w = World::new();
    w.extract_ok = false;
    let mut p = standard("/t");
    assert_eq!(w.drive(&mut p), Err(PatchError::UnpackFailed));
    assert!(w.files.contains_key("/home/u/.cache/lutwig/vxacertp.tar.gz"));
}

#[test]
fn missing_base_is_invalid_home() {
    let mut w = World::new();
    let mut p = pipeline(None, None, "/t");
    assert_eq!(w.drive(&mut p), Err(PatchError::InvalidHome));
    let mut q = pipeline(None, Some("relative"), "/t");
    assert_eq!(w.drive(&mut q), Err(PatchError::InvalidHome));
}

#[test]
fn explicit_cache_must_be_absolute_directory() {
    let mut w = World::new();
    let mut p = pipeline(Some("/nowhere"), None, "/t");
    assert_eq!(w.drive(&mut p), Err(PatchError::InvalidCache));
    w.dirs.insert("rel".to_string());
    let mut q = pipeline(Some("rel"), None, "/t");
    assert_eq!(w.drive(&mut q), Err(PatchError::InvalidCache));
    w.dirs.insert("/mine".to_string());
    let mut r = pipeline(Some("/mine"), None, "/t");
    assert_eq!(w.drive(&mut r), Ok(()));
    assert!(w.files.contains_key("/mine/vxacertp.tar.gz"));
}

#[test]
fn unexpected_event_keeps_stage() {
    let mut p = standard("/t");
    p.on_event(Event::Completed(true));
    assert_eq!(p.stage, Stage::CheckTarget);
}

#[test]
fn install_succeeds() {
    assert_eq!(install("/c", "/t"), Ok(()));
}

#[test]
fn errors_are_described() {
    assert_eq!(PatchError::UnpackFailed.describe(), "the archive could not be unpacked");
    assert_eq!(PatchError::MirrorUnavailable(503).describe(), "the mirror did not answer with success");
    assert_eq!(PatchError::InvalidTarget.describe(), "the target is not an existing directory");
    assert_ne!(PatchError::NetworkFailure.describe(), PatchError::FilesystemFailure.describe());
}

#[test]
fn body_that_breaks_off_is_network_failure() {
    let mut p = standard("/t");
    p.stage = Stage::Save;
    p.on_event(Event::TransportFailed);
    assert_eq!(p.stage, Stage::Failed(PatchError::NetworkFailure));
    let mut q = standard("/t");
    q.stage = Stage::Save;
    q.on_event(Event::Completed(false));
    assert_eq!(q.stage, Stage::Failed(PatchError::FilesystemFailure));
}

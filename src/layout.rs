use vstd::prelude::*;
use vstd::string::*;

use crate::config::Config;
use crate::paths::{absolute, is_absolute, join, joined};

verus! {

/// File name of the archive in the cache: `<id>.<ext>`.
pub open spec fn archive_name(cfg: Config) -> Seq<char> {
    cfg.package_id@ + seq!['.'] + cfg.archive_ext@
}

/// Where the downloaded archive lives.
pub open spec fn archive_path(cfg: Config, cache: Seq<char>) -> Seq<char> {
    joined(cache, archive_name(cfg))
}

/// Root of the unpacked tree; its existence marks the archive as unpacked.
pub open spec fn tree_path(cfg: Config, cache: Seq<char>) -> Seq<char> {
    joined(cache, cfg.package_id@)
}

/// The file whose advisory lock serialises runs over one cache root.
pub open spec fn lock_path(cache: Seq<char>) -> Seq<char> {
    joined(cache, seq!['.', 'l', 'o', 'c', 'k'])
}

/// Scratch directory that extraction writes into before the tree is moved in place.
pub open spec fn staging_path(cfg: Config, cache: Seq<char>) -> Seq<char> {
    joined(cache, seq!['.'] + cfg.package_id@ + seq!['.', 'p', 'a', 'r', 't'])
}

/// Where the archive's top-level entry lands inside the scratch directory.
pub open spec fn extracted_path(cfg: Config, cache: Seq<char>) -> Seq<char> {
    joined(staging_path(cfg, cache), cfg.package_id@)
}

/// Directory of the unpacked tree that holds the asset subdirectories.
pub open spec fn content_path(cfg: Config, cache: Seq<char>) -> Seq<char> {
    joined(tree_path(cfg, cache), cfg.content_dir@)
}

/// The cached source of the asset subdirectory at position `k`.
pub open spec fn source_path(cfg: Config, cache: Seq<char>, k: int) -> Seq<char> {
    joined(content_path(cfg, cache), cfg.assets@[k]@)
}

/// The target-side counterpart of the asset subdirectory at position `k`.
pub open spec fn dest_path(cfg: Config, target: Seq<char>, k: int) -> Seq<char> {
    joined(target, cfg.assets@[k]@)
}

/// The view of an optional string.
pub open spec fn opt_view(o: Option<String>) -> Option<Seq<char>> {
    match o {
        Some(s) => Some(s@),
        None => None,
    }
}

/// The cache root: the caller's directory when one is given, else the
/// namespace below an absolute platform cache base; none without either.
pub open spec fn located(
    cfg: Config,
    explicit: Option<Seq<char>>,
    base: Option<Seq<char>>,
) -> Option<Seq<char>> {
    match explicit {
        Some(c) => Some(c),
        None => match base {
            Some(b) => if absolute(b) {
                Some(joined(b, cfg.namespace@))
            } else {
                None
            },
            None => None,
        },
    }
}

/// Every path one run works on, fixed before the run starts.
pub struct Layout {
    pub config: Config,
    pub target: String,
    /// Whether the cache root was given by the caller (and must be checked on disk).
    pub explicit: bool,
    /// Whether a cache root could be determined at all.
    pub has_cache: bool,
    pub cache: String,
    pub lock: String,
    pub archive: String,
    pub tree: String,
    pub staging: String,
    pub extracted: String,
    pub sources: Vec<String>,
    pub dests: Vec<String>,
}

impl Layout {
    /// Number of asset subdirectories to merge.
    pub open spec fn len(self) -> nat {
        self.config.assets@.len()
    }

    /// Every path is the one derived from the configuration, the cache root and the target.
    pub open spec fn wf(self) -> bool {
        &&& self.lock@ == lock_path(self.cache@)
        &&& self.archive@ == archive_path(self.config, self.cache@)
        &&& self.tree@ == tree_path(self.config, self.cache@)
        &&& self.staging@ == staging_path(self.config, self.cache@)
        &&& self.extracted@ == extracted_path(self.config, self.cache@)
        &&& self.len() <= usize::MAX
        &&& self.sources@.len() == self.len()
        &&& self.dests@.len() == self.len()
        &&& forall|k: int|
            0 <= k < self.len() ==> #[trigger] self.sources@[k]@ == source_path(
                self.config,
                self.cache@,
                k,
            )
        &&& forall|k: int|
            0 <= k < self.len() ==> #[trigger] self.dests@[k]@ == dest_path(
                self.config,
                self.target@,
                k,
            )
    }

    /// Derives every path of a run from the configuration, the target, an
    /// optional cache directory given by the caller and the platform cache base.
    pub fn new(
        config: Config,
        target: String,
        cache_override: Option<String>,
        platform_base: Option<String>,
    ) -> (r: Layout)
        ensures
            r.wf(),
            r.config == config,
            r.target == target,
            r.explicit == cache_override.is_some(),
            r.has_cache == located(
                config,
                opt_view(cache_override),
                opt_view(platform_base),
            ).is_some(),
            r.has_cache ==> r.cache@ == located(
                config,
                opt_view(cache_override),
                opt_view(platform_base),
            ).unwrap(),
            !r.has_cache ==> r.cache@.len() == 0,
    {
        let explicit = cache_override.is_some();
        let (has_cache, cache) = match cache_override {
            Some(c) => (true, c),
            None => match platform_base {
                Some(b) => {
                    if is_absolute(b.as_str()) {
                        (true, join(b.as_str(), config.namespace.as_str()))
                    } else {
                        (false, String::new())
                    }
                },
                None => (false, String::new()),
            },
        };
        let mut name = String::from_str(config.package_id.as_str());
        name.append(".");
        name.append(config.archive_ext.as_str());
        let mut scratch = String::from_str(".");
        scratch.append(config.package_id.as_str());
        scratch.append(".part");
        proof {
            reveal_strlit(".");
            reveal_strlit(".part");
            reveal_strlit(".lock");
            assert(".lock"@ =~= seq!['.', 'l', 'o', 'c', 'k']);
            assert(name@ =~= archive_name(config));
            assert(scratch@ =~= seq!['.'] + config.package_id@ + seq!['.', 'p', 'a', 'r', 't']);
        }
        let lock = join(cache.as_str(), ".lock");
        let archive = join(cache.as_str(), name.as_str());
        let tree = join(cache.as_str(), config.package_id.as_str());
        let staging = join(cache.as_str(), scratch.as_str());
        let extracted = join(staging.as_str(), config.package_id.as_str());
        let content = join(tree.as_str(), config.content_dir.as_str());
        let n = config.assets.len();
        let mut sources: Vec<String> = Vec::new();
        let mut dests: Vec<String> = Vec::new();
        let mut k: usize = 0;
        while k < n
            invariant
                k <= n,
                n == config.assets@.len(),
                sources@.len() == k,
                dests@.len() == k,
                content@ == content_path(config, cache@),
                forall|j: int|
                    0 <= j < k ==> #[trigger] sources@[j]@ == source_path(config, cache@, j),
                forall|j: int|
                    0 <= j < k ==> #[trigger] dests@[j]@ == dest_path(config, target@, j),
            decreases n - k,
        {
            sources.push(join(content.as_str(), config.assets[k].as_str()));
            dests.push(join(target.as_str(), config.assets[k].as_str()));
            k = k + 1;
        }
        Layout {
            config,
            target,
            explicit,
            has_cache,
            cache,
            lock,
            archive,
            tree,
            staging,
            extracted,
            sources,
            dests,
        }
    }
}

} // verus!

//! The Hugging Face model cache: where it lives, how a model's directory is
//! named, and what a look at the disk reports. Listing, sizing and deleting
//! directories and running `hf` is the caller's part.
use vstd::prelude::*;

use crate::deps::{home_dir, joined_path, path_join};
use crate::models::{CacheInfo, ModelInfo};
use crate::text::{has_prefix, owned, push_all, push_char, chars_of};

verus! {

/// Model Manager for handling HuggingFace models
pub struct ModelManager {
    pub cache_dir: String,
}

/// The cache directory under a home directory, or under `~` without one.
pub open spec fn cache_dir_of(home: Option<Seq<char>>) -> Seq<char> {
    joined_path(
        match home {
            Some(h) => h,
            None => "~"@,
        },
        ".cache/huggingface/hub"@,
    )
}

impl ModelManager {
    /// Create a new ModelManager instance, with the cache under the user's
    /// home directory.
    pub fn new() -> (m: Self)
        ensures
            exists|home: Option<Seq<char>>| m.cache_dir@ == cache_dir_of(home),
    {
        let home = home_dir();
        let m = match &home {
            Some(h) => Self::with_home(Some(h.as_str())),
            None => Self::with_home(None),
        };
        proof {
            let w = match home {
                Some(h) => Some(h@),
                None => None,
            };
            assert(m.cache_dir@ == cache_dir_of(w));
        }
        m
    }

    /// A manager whose cache is under `home` (under `~` without one).
    pub fn with_home(home: Option<&str>) -> (m: Self)
        ensures
            m.cache_dir@ == cache_dir_of(
                match home {
                    Some(h) => Some(h@),
                    None => None,
                },
            ),
    {
        let base = match home {
            Some(h) => h,
            None => "~",
        };
        ModelManager { cache_dir: path_join(base, ".cache/huggingface/hub") }
    }

    /// Initialize environment variables for HuggingFace cache: the system
    /// default path is used, so there is nothing to set.
    pub fn init_hf_cache() -> (r: Result<(), String>)
        ensures
            r is Ok,
    {
        Ok(())
    }
}

/// A model id with each `/` written as `--`.
pub open spec fn dashed(s: Seq<char>) -> Seq<char>
    decreases s.len(),
{
    if s.len() == 0 {
        Seq::empty()
    } else {
        dashed(s.drop_last()) + (if s.last() == '/' {
            seq!['-', '-']
        } else {
            seq![s.last()]
        })
    }
}

/// The name of a model's directory in the cache.
pub open spec fn model_dir_name(id: Seq<char>) -> Seq<char> {
    "models--"@ + dashed(id)
}

/// The cache directory name of a model: `models--` and the id with `/`
/// written as `--`.
pub fn model_cache_dir_name(model_id: &str) -> (s: String)
    ensures
        s@ == model_dir_name(model_id@),
{
    let mut s = owned("models--");
    let ghost start = s@;
    let v = chars_of(model_id);
    let mut i: usize = 0;
    while i < v.len()
        invariant
            i <= v@.len(),
            v@ == model_id@,
            s@ == start + dashed(v@.take(i as int)),
        decreases v@.len() - i,
    {
        assert(v@.take(i + 1).drop_last() == v@.take(i as int));
        assert(v@.take(i + 1).last() == v@[i as int]);
        if v[i] == '/' {
            push_char(&mut s, '-');
            push_char(&mut s, '-');
        } else {
            push_char(&mut s, v[i]);
        }
        i += 1;
    }
    assert(v@.take(v@.len() as int) == v@);
    s
}

/// The directory a model is cached in.
pub fn model_cache_dir(cache_dir: &str, model_id: &str) -> (p: String)
    ensures
        p@ == joined_path(cache_dir@, model_dir_name(model_id@)),
{
    let name = model_cache_dir_name(model_id);
    path_join(cache_dir, name.as_str())
}

impl ModelManager {
    /// Check if models are cached and update their cache status: `cached[i]`
    /// tells whether the cache directory of `models[i]` exists, and where it
    /// does, its path is recorded.
    pub fn check_cached_status(&self, models: &mut Vec<ModelInfo>, cached: &Vec<bool>)
        requires
            old(models)@.len() == cached@.len(),
        ensures
            final(models)@.len() == old(models)@.len(),
            forall|i: int|
                0 <= i < old(models)@.len() ==> {
                    let m = #[trigger] final(models)@[i];
                    let o = old(models)@[i];
                    &&& m.is_cached == cached@[i]
                    &&& (if cached@[i] {
                        m.cache_path matches Some(p) && p@ == joined_path(self.cache_dir@, model_dir_name(o.id@))
                    } else {
                        m.cache_path is None
                    })
                    &&& m.id == o.id
                    &&& m.name == o.name
                    &&& m.size == o.size
                    &&& m.memory_required == o.memory_required
                    &&& m.status == o.status
                    &&& m.description == o.description
                    &&& m.model_type == o.model_type
                    &&& m.size_mb == o.size_mb
                },
    {
        let ghost pre = models@;
        let mut i: usize = 0;
        while i < models.len()
            invariant
                i <= models@.len(),
                models@.len() == pre.len() == cached@.len(),
                forall|j: int|
                    i <= j < pre.len() ==> #[trigger] models@[j] == pre[j],
                forall|j: int|
                    0 <= j < i ==> {
                        let m = #[trigger] models@[j];
                        let o = pre[j];
                        &&& m.is_cached == cached@[j]
                        &&& (if cached@[j] {
                            m.cache_path matches Some(p) && p@ == joined_path(self.cache_dir@, model_dir_name(o.id@))
                        } else {
                            m.cache_path is None
                        })
                        &&& m.id == o.id
                        &&& m.name == o.name
                        &&& m.size == o.size
                        &&& m.memory_required == o.memory_required
                        &&& m.status == o.status
                        &&& m.description == o.description
                        &&& m.model_type == o.model_type
                        &&& m.size_mb == o.size_mb
                    },
            decreases pre.len() - i,
        {
            let path = if cached[i] {
                Some(model_cache_dir(self.cache_dir.as_str(), models[i].id.as_str()))
            } else {
                None
            };
            let mut m = models.remove(i);
            m.is_cached = cached[i];
            m.cache_path = path;
            models.insert(i, m);
            i += 1;
        }
    }
}

/// The number of listed names that are model directories.
pub open spec fn model_dir_count(names: Seq<Seq<char>>) -> nat
    decreases names.len(),
{
    if names.len() == 0 {
        0
    } else {
        model_dir_count(names.drop_last()) + (if has_prefix(names.last(), "models--"@) {
            1nat
        } else {
            0nat
        })
    }
}

impl ModelManager {
    /// Get cache size information: the cache's path, its size in whole
    /// megabytes, and the number of model directories among its entries.
    /// `listing` is the total size in bytes and the names of its entries, or
    /// `None` when the directory does not exist.
    pub fn get_cache_info(&self, listing: Option<(u64, Vec<String>)>) -> (info: CacheInfo)
        ensures
            info.path@ == self.cache_dir@,
            match listing {
                Some((bytes, names)) => info.total_size_mb == bytes / 1048576u64
                    && info.model_count == model_dir_count(names@.map_values(|n: String| n@)),
                None => info.total_size_mb == 0 && info.model_count == 0,
            },
    {
        match listing {
            None => CacheInfo { path: owned(self.cache_dir.as_str()), total_size_mb: 0, model_count: 0 },
            Some((bytes, names)) => {
                let ghost views = names@.map_values(|n: String| n@);
                let prefix = chars_of("models--");
                let mut count: usize = 0;
                let mut i: usize = 0;
                while i < names.len()
                    invariant
                        i <= names@.len(),
                        views == names@.map_values(|n: String| n@),
                        prefix@ == "models--"@,
                        count == model_dir_count(views.take(i as int)),
                        count <= i,
                    decreases names@.len() - i,
                {
                    assert(views.take(i + 1).drop_last() == views.take(i as int));
                    assert(views.take(i + 1).last() == names@[i as int]@);
                    let v = chars_of(names[i].as_str());
                    let hit = if v.len() >= prefix.len() {
                        crate::text::prefix_at(&v, 0, &prefix)
                    } else {
                        false
                    };
                    proof {
                        if v@.len() >= prefix@.len() {
                            assert(v@.subrange(0, v@.len() as int) == v@);
                        }
                    }
                    if hit {
                        count += 1;
                    }
                    i += 1;
                }
                assert(views.take(views.len() as int) == views);
                CacheInfo { path: owned(self.cache_dir.as_str()), total_size_mb: bytes / 1048576, model_count: count }
            },
        }
    }
}

/// How a run of `hf download` went.
pub enum DownloadRun {
    /// The `hf` command is not installed.
    HfMissing,
    /// The command could not be run.
    SpawnError,
    /// The command ran: whether it succeeded, its output and its errors.
    Finished { success: bool, stdout: String, stderr: String },
}

impl ModelManager {
    /// The outcome of downloading a model with `hf download`: the command's
    /// output, or the error.
    pub fn download_model(model_id: &str, run: DownloadRun) -> (r: Result<String, String>)
        ensures
            match run {
                DownloadRun::HfMissing => r matches Err(e)
                    && e@ == "hf command not found. Please install huggingface_hub: pip install -U huggingface_hub"@,
                DownloadRun::SpawnError => r matches Err(e) && e@ == "Failed to execute hf download"@,
                DownloadRun::Finished { success, stdout, stderr } => if success {
                    r matches Ok(o) && o@ == stdout@
                } else {
                    r matches Err(e) && e@ == "Failed to download model "@ + model_id@ + ": "@ + stderr@
                },
            },
    {
        match run {
            DownloadRun::HfMissing => Err(owned("hf command not found. Please install huggingface_hub: pip install -U huggingface_hub")),
            DownloadRun::SpawnError => Err(owned("Failed to execute hf download")),
            DownloadRun::Finished { success, stdout, stderr } => {
                if success {
                    Ok(stdout)
                } else {
                    let mut e = owned("Failed to download model ");
                    push_all(&mut e, model_id);
                    push_all(&mut e, ": ");
                    push_all(&mut e, stderr.as_str());
                    Err(e)
                }
            },
        }
    }
}

/// A model's cache directory name holds no `/`: it names one directory
/// directly under the cache, whatever the model id.
pub proof fn lemma_model_dir_flat(id: Seq<char>)
    ensures
        forall|i: int| 0 <= i < dashed(id).len() ==> dashed(id)[i] != '/',
    decreases id.len(),
{
    if id.len() > 0 {
        lemma_model_dir_flat(id.drop_last());
        let d = dashed(id);
        let p = dashed(id.drop_last());
        assert forall|i: int| 0 <= i < d.len() implies d[i] != '/' by {
            if i < p.len() {
                assert(d[i] == p[i]);
            }
        }
    }
}

} // verus!

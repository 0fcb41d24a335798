//! The workspace: one directory owning the pipeline's `build/`, `downloads/`,
//! `cache/` and `tmp/` trees, and the computations behind the
//! command-shadowing trick used during the native install step.

use vstd::prelude::*;
use crate::cache::CRubyBuildInput;
use crate::cache::cache_key;
use crate::cache::spec_cache_key;
use crate::paths::join_path;
use crate::paths::spec_join_path;

verus! {

/// A directory tree that one pipeline run works in.
///
/// Creating the value only fixes the paths; the surrounding binary makes the
/// four subdirectories exist before any stage runs, so later stages may
/// assume them.
pub struct Workspace {
    pub dir: String,
    pub save_temps: bool,
}

impl Workspace {
    /// Fixes the workspace root.  `save_temps` asks every scoped temporary
    /// resource to be left on disk for inspection instead of being deleted.
    pub fn create(dir: String, save_temps: bool) -> (w: Workspace)
        ensures
            w.dir == dir,
            w.save_temps == save_temps,
    {
        Workspace { dir, save_temps }
    }

    /// The scratch tree for native builds.
    pub fn build_dir(&self) -> (r: String)
        ensures
            r@ == spec_join_path(self.dir@, "build"@),
    {
        join_path(self.dir.as_str(), "build")
    }

    /// Where toolchain archives land, keyed by their literal version string.
    pub fn downloads_dir(&self) -> (r: String)
        ensures
            r@ == spec_join_path(self.dir@, "downloads"@),
    {
        join_path(self.dir.as_str(), "downloads")
    }

    /// Where completed installs land; a subdirectory's presence is the cache
    /// hit signal.
    pub fn cache_dir(&self) -> (r: String)
        ensures
            r@ == spec_join_path(self.dir@, "cache"@),
    {
        join_path(self.dir.as_str(), "cache")
    }

    /// The tree for scoped temporary files.
    pub fn temporary_dir(&self) -> (r: String)
        ensures
            r@ == spec_join_path(self.dir@, "tmp"@),
    {
        join_path(self.dir.as_str(), "tmp")
    }

    /// The scratch and install directories of one build, both named by the
    /// descriptor's content-addressed key.
    pub fn hashed_dirs(&self, input: &CRubyBuildInput, name: &str) -> (r: (String, String))
        ensures
            r.0@ == spec_join_path(
                spec_join_path(self.dir@, "build"@),
                spec_cache_key(name@, input@),
            ),
            r.1@ == spec_join_path(
                spec_join_path(self.dir@, "cache"@),
                spec_cache_key(name@, input@),
            ),
    {
        let hashed = cache_key(name, input);
        let scratch = join_path(self.build_dir().as_str(), hashed.as_str());
        let install = join_path(self.cache_dir().as_str(), hashed.as_str());
        (scratch, install)
    }
}

/// The body of the stub placed in front of the search path to shadow an
/// unwanted tool: a script whose interpreter line names an always-succeeding
/// program.
pub fn shadow_script(true_bin: &str) -> (r: String)
    ensures
        r@ == "#!"@ + true_bin@ + "\n"@,
{
    let mut r = String::from_str("#!");
    r.append(true_bin);
    r.append("\n");
    r
}

/// The search path for one child process, with `front` prepended to the
/// inherited path when there is one.
pub fn prepend_search_path(front: &str, current: Option<&String>) -> (r: String)
    ensures
        match current {
            Some(p) => r@ == front@ + seq![':'] + p@,
            None => r@ == front@,
        },
{
    let mut r = String::from_str(front);
    match current {
        Some(p) => {
            r.append(":");
            r.append(p.as_str());
            proof {
                reveal_strlit(":");
                assert(r@ =~= front@ + seq![':'] + p@);
            }
        },
        None => (),
    }
    r
}

} // verus!

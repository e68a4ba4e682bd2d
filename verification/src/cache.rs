//! The workspace cache: a stable per-package build directory under a
//! process-wide cache root, created on first use and reused ever after.

use vstd::prelude::*;
use vstd::string::StringExecFns;
use crate::name::PackageName;

verus! {

/// Joining one path segment onto a base with the platform separator.
pub open spec fn joined(base: Seq<char>, seg: Seq<char>) -> Seq<char> {
    base + "/"@ + seg
}

/// The cache root: the platform cache directory when there is one, else the
/// platform home directory, else the current directory, extended with the
/// helper's namespace segment and the "builds" segment.
pub open spec fn cache_root_spec(cache: Option<Seq<char>>, home: Option<Seq<char>>) -> Seq<char> {
    let base = if cache is Some {
        cache->0
    } else if home is Some {
        home->0
    } else {
        "."@
    };
    joined(joined(base, "nay"@), "builds"@)
}

/// The workspace of one package: the cache root extended with the package
/// name.
pub open spec fn workspace_path_spec(root: Seq<char>, name: Seq<char>) -> Seq<char> {
    joined(root, name)
}

/// Where a package's build recipe is cloned to: the "src" directory inside
/// its workspace.
pub open spec fn src_dir_spec(root: Seq<char>, name: Seq<char>) -> Seq<char> {
    joined(workspace_path_spec(root, name), "src"@)
}

/// Joins one segment onto a base path.
pub fn join_path(base: &str, seg: &str) -> (r: String)
    ensures
        r@ == joined(base@, seg@),
{
    let mut s = String::from_str(base);
    s.append("/");
    s.append(seg);
    s
}

/// What a directory looks like to the fetch-reuse decision.
pub enum DirState {
    Missing,
    EmptyDir,
    NonEmptyDir,
}

/// The fetch step reuses an existing clone exactly when the destination is a
/// non-empty directory, whatever its contents: a deliberate
/// reuse-over-freshness trade.
pub open spec fn reuse_fetch(d: DirState) -> bool {
    d is NonEmptyDir
}

pub open spec fn opt_str_view(o: Option<String>) -> Option<Seq<char>> {
    match o {
        Some(s) => Some(s@),
        None => None,
    }
}

/// Picks the cache root from the platform directories handed in, in priority
/// order, and appends the fixed namespace and "builds" segments.
pub fn cache_root_from(cache: Option<String>, home: Option<String>) -> (r: String)
    ensures
        r@ == cache_root_spec(opt_str_view(cache), opt_str_view(home)),
{
    let base: String = match cache {
        Some(c) => c,
        None => match home {
            Some(h) => h,
            None => String::from_str("."),
        },
    };
    let a = join_path(base.as_str(), "nay");
    join_path(a.as_str(), "builds")
}

/// Relies on dirs::cache_dir: the platform's cache directory, when the
/// platform defines one the process can see. Nothing is promised of the
/// result: it depends on the environment.
#[verifier::external_body]
fn platform_cache_dir() -> (r: Option<String>) {
    dirs::cache_dir().and_then(|p| p.to_str().map(|s| s.to_string()))
}

/// Relies on dirs::home_dir: the platform's home directory, when the
/// platform defines one the process can see. Nothing is promised of the
/// result: it depends on the environment.
#[verifier::external_body]
fn platform_home_dir() -> (r: Option<String>) {
    dirs::home_dir().and_then(|p| p.to_str().map(|s| s.to_string()))
}

/// The process-wide default cache root, read from the platform directories.
pub fn default_cache_root() -> (r: String)
    ensures
        (exists|c: Option<Seq<char>>, h: Option<Seq<char>>| r@ == cache_root_spec(c, h)),
{
    let cache = platform_cache_dir();
    let home = platform_home_dir();
    let ghost cv = opt_str_view(cache);
    let ghost hv = opt_str_view(home);
    let r = cache_root_from(cache, home);
    proof {
        assert(r@ == cache_root_spec(cv, hv));
    }
    r
}

/// The workspace directory of one package under a given root.
pub fn get_package_cache(root: &str, name: &PackageName) -> (r: String)
    ensures
        r@ == workspace_path_spec(root@, name@),
{
    join_path(root, name.as_str())
}

/// The clone destination of one package under a given root.
pub fn src_dir(root: &str, name: &PackageName) -> (r: String)
    ensures
        r@ == src_dir_spec(root@, name@),
{
    let w = get_package_cache(root, name);
    join_path(w.as_str(), "src")
}

/// What "ensure this directory exists" does to a filesystem, modelled as the
/// set of directories that exist: an already-present directory is left
/// untouched, a missing one is created. The second component records whether
/// anything was created.
pub open spec fn ensure_dir_model(fs: Set<Seq<char>>, path: Seq<char>) -> (Set<Seq<char>>, bool) {
    if fs.contains(path) {
        (fs, false)
    } else {
        (fs.insert(path), true)
    }
}

/// Idempotence law of the workspace cache: ensuring the same package's
/// workspace twice yields the same path both times, and the second call
/// creates nothing and leaves the filesystem as the first call left it.
pub proof fn lemma_ensure_workspace_idempotent(fs: Set<Seq<char>>, root: Seq<char>, name: Seq<char>)
    ensures
        ({
            let path1 = workspace_path_spec(root, name);
            let path2 = workspace_path_spec(root, name);
            let (fs1, _created1) = ensure_dir_model(fs, path1);
            let (fs2, created2) = ensure_dir_model(fs1, path2);
            &&& path1 == path2
            &&& fs2 == fs1
            &&& !created2
        }),
{
    let path = workspace_path_spec(root, name);
    let (fs1, _created1) = ensure_dir_model(fs, path);
    assert(fs1.contains(path));
}

} // verus!

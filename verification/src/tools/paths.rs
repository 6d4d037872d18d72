//! Which file paths the file tools may touch.
use vstd::prelude::*;

verus! {

/// What `std::path::Path::starts_with` answers for two paths: whether `base`
/// is a prefix of `path` by whole components.
pub uninterp spec fn path_starts_with_of(path: Seq<char>, base: Seq<char>) -> bool;

/// Calls `std::path::Path::starts_with`, which compares whole path
/// components; its answer is named by `path_starts_with_of`.
#[verifier::external_body]
pub(crate) fn path_starts_with(path: &str, base: &str) -> (r: bool)
    ensures
        r == path_starts_with_of(path@, base@),
{
    std::path::Path::new(path).starts_with(base)
}

/// The directory that is always open to the file tools, once any directory is
/// configured.
pub open spec fn work_dir() -> Seq<char> {
    "/root/work/"@
}

/// A path is allowed when some directory is configured and the path lies in
/// one of the configured directories or in the work directory.
pub open spec fn path_allowed(dirs: Seq<Seq<char>>, path: Seq<char>) -> bool {
    exists|i: int| 0 <= i < dirs.len() && (path_starts_with_of(path, #[trigger] dirs[i]) || path_starts_with_of(path, work_dir()))
}

/// Which paths the file tools may touch: with no directory configured, none;
/// otherwise a path is allowed exactly when it lies (by whole components) in
/// one of the configured directories, whichever one, or in the work directory.
pub proof fn lemma_allowed_paths(dirs: Seq<Seq<char>>, path: Seq<char>)
    ensures
        dirs.len() == 0 ==> !path_allowed(dirs, path),
        forall|i: int| 0 <= i < dirs.len() && #[trigger] path_starts_with_of(path, dirs[i])
            ==> path_allowed(dirs, path),
        dirs.len() > 0 && path_starts_with_of(path, "/root/work/"@) ==> path_allowed(dirs, path),
        path_allowed(dirs, path) ==> dirs.len() > 0 && (path_starts_with_of(path, "/root/work/"@)
            || exists|i: int| 0 <= i < dirs.len() && path_starts_with_of(path, dirs[i])),
{
    if dirs.len() > 0 && path_starts_with_of(path, "/root/work/"@) {
        assert(path_starts_with_of(path, work_dir()));
        assert(dirs[0] == dirs[0]);
    }
}

/// Whether `path` is allowed by the configured directories `dirs`.
pub fn allowed_in(dirs: &Vec<String>, path: &str) -> (r: bool)
    ensures
        r == path_allowed(dirs@.map_values(|d: String| d@), path@),
{
    let ghost ds = dirs@.map_values(|d: String| d@);
    let n = dirs.len();
    let mut i: usize = 0;
    while i < n
        invariant
            n == dirs@.len(),
            i <= n,
            ds == dirs@.map_values(|d: String| d@),
            forall|k: int| 0 <= k < i ==> !(path_starts_with_of(path@, ds[k]) || path_starts_with_of(path@, work_dir())),
        decreases n - i,
    {
        if path_starts_with(path, dirs[i].as_str()) || path_starts_with(path, "/root/work/") {
            assert(ds[i as int] == dirs@[i as int]@);
            return true;
        }
        i = i + 1;
    }
    false
}

} // verus!

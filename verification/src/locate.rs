//! Where the helper binary can be.
use std::path::PathBuf;
use vstd::prelude::*;

use crate::error::{Error, ErrorView};
use crate::text::join2;

verus! {

/// Default name of the helper binary produced by `swift build`.
pub const BINARY_NAME: &'static str = "FMBridge";

/// Environment variable that names the helper binary.
pub const BINARY_ENV_VAR: &'static str = "FM_BRIDGE_BIN";

/// The path that `std::path::Path::join` gives for `base` and `part`.
pub uninterp spec fn joined(base: std::path::PathBuf, part: Seq<char>) -> std::path::PathBuf;

/// The path that `text` spells.
pub uninterp spec fn path_of(text: Seq<char>) -> std::path::PathBuf;

/// Whether a path has no characters at all.
pub uninterp spec fn is_empty_path(path: std::path::PathBuf) -> bool;

/// `std::path::Path::join`: `part` adjoined to `base`, which depends on the two alone.
#[verifier::external_body]
fn join(base: &std::path::PathBuf, part: &str) -> (r: std::path::PathBuf)
    ensures
        r == joined(*base, part@),
{
    base.join(part)
}

/// `std::path::PathBuf::from` of a string: the path that the string spells.
#[verifier::external_body]
fn path_from(text: &str) -> (r: std::path::PathBuf)
    ensures
        r == path_of(text@),
{
    std::path::PathBuf::from(text)
}

/// `std::ffi::OsStr::is_empty` of a path: whether it has no characters at all.
#[verifier::external_body]
fn path_is_empty(path: &std::path::PathBuf) -> (r: bool)
    ensures
        r == is_empty_path(*path),
{
    path.as_os_str().is_empty()
}

/// `Clone` of `std::path::PathBuf`: the copy is the same path.
pub assume_specification[ <std::path::PathBuf as Clone>::clone ](path: &std::path::PathBuf) -> (r:
    std::path::PathBuf)
    ensures
        r == *path,
;

/// What the file system says of a path.
#[derive(Debug)]
pub struct FileStatus {
    /// Whether a regular file is there.
    pub is_file: bool,
    /// The path with symbolic links and `..` resolved, where that worked.
    pub canonical: Option<PathBuf>,
}

/// Where to look for the helper during development.
#[derive(Debug)]
pub struct SearchPlaces {
    /// The working directory, where it is known.
    pub working_dir: Option<PathBuf>,
    /// The directory that holds the running executable, where it is known.
    pub executable_dir: Option<PathBuf>,
    /// The directories of the search path, in order.
    pub search_path: Vec<PathBuf>,
}

/// The helper in a directory.
pub open spec fn helper_in(dir: PathBuf) -> PathBuf {
    joined(dir, BINARY_NAME@)
}

/// Where a bundle can hold the helper: next to the executable, then among the resources.
pub open spec fn bundle_paths(exe_dir: PathBuf) -> Seq<PathBuf> {
    seq![helper_in(exe_dir), helper_in(joined(joined(exe_dir, ".."@), "Resources"@))]
}

/// Where the helper can be during development: built under the working directory, then next to the
/// executable, then along the search path.
pub open spec fn search_paths(places: SearchPlaces) -> Seq<PathBuf> {
    (match places.working_dir {
        Some(dir) => seq![
            helper_in(joined(dir, "swift/.build/release"@)),
            helper_in(joined(dir, "swift/.build/debug"@)),
        ],
        None => Seq::empty(),
    }) + (match places.executable_dir {
        Some(dir) => seq![helper_in(dir)],
        None => Seq::empty(),
    }) + places.search_path@.map_values(|dir: PathBuf| helper_in(dir))
}

/// The position of the first of `n` candidates that is a file. A candidate that nothing is said
/// of is none.
pub open spec fn first_file(is_file: Seq<bool>, n: int) -> Option<int>
    decreases n,
{
    if n <= 0 {
        None
    } else {
        match first_file(is_file, n - 1) {
            Some(at) => Some(at),
            None => if n <= is_file.len() && is_file[n - 1] {
                Some(n - 1)
            } else {
                None
            },
        }
    }
}

/// The candidate that is chosen is a file, and no candidate before it is one; where none is
/// chosen, no candidate is a file.
pub proof fn first_file_is_the_first(is_file: Seq<bool>, n: int)
    requires
        n >= 0,
    ensures
        match first_file(is_file, n) {
            Some(at) => {
                &&& 0 <= at < n
                &&& at < is_file.len()
                &&& is_file[at]
                &&& forall|i: int| 0 <= i < at ==> !#[trigger] is_file[i]
            },
            None => forall|i: int| 0 <= i < n && i < is_file.len() ==> !#[trigger] is_file[i],
        },
    decreases n,
{
    if n > 0 {
        first_file_is_the_first(is_file, n - 1);
    }
}

proof fn lemma_first_file_is_kept(is_file: Seq<bool>, n: int, m: int)
    requires
        0 <= n <= m,
        first_file(is_file, n) is Some,
    ensures
        first_file(is_file, m) == first_file(is_file, n),
    decreases m - n,
{
    if n < m {
        lemma_first_file_is_kept(is_file, n, m - 1);
    }
}

/// Which candidates are files.
pub open spec fn file_flags(status: Seq<FileStatus>) -> Seq<bool> {
    status.map_values(|s: FileStatus| s.is_file)
}

/// What is found of a bundle: the first place that holds a file, with links resolved where that
/// worked.
pub open spec fn bundled_helper(exe_dir: PathBuf, status: Seq<FileStatus>) -> Option<PathBuf> {
    match first_file(file_flags(status), 2) {
        Some(at) => match status[at].canonical {
            Some(path) => Some(path),
            None => Some(bundle_paths(exe_dir)[at]),
        },
        None => None,
    }
}

/// Where a bundle whose executable lies in `exe_dir` can hold the helper.
pub fn bundle_candidates(exe_dir: &PathBuf) -> (r: Vec<PathBuf>)
    ensures
        r@ == bundle_paths(*exe_dir),
{
    let mut paths: Vec<PathBuf> = Vec::new();
    // A Copy Files phase with destination "Executables", which is what Apple recommends.
    paths.push(join(exe_dir, BINARY_NAME));
    // Destination "Resources".
    paths.push(join(&join(&join(exe_dir, ".."), "Resources"), BINARY_NAME));
    assert(paths@ =~= bundle_paths(*exe_dir));
    paths
}

/// Resolves an embedded helper relative to the directory holding the running executable, given
/// what the file system says of each of [`bundle_candidates`].
pub fn resolve_bundled(exe_dir: &PathBuf, status: &Vec<FileStatus>) -> (r: Result<PathBuf, Error>)
    ensures
        match r {
            Ok(path) => bundled_helper(*exe_dir, status@) == Some(path),
            Err(error) => {
                &&& bundled_helper(*exe_dir, status@) is None
                &&& error@ == ErrorView::BinaryNotFound(helper_in(*exe_dir))
            },
        },
{
    let mut paths = bundle_candidates(exe_dir);
    let ghost flags = file_flags(status@);
    reveal_with_fuel(first_file, 3);
    if status.len() > 0 && status[0].is_file {
        assert(flags[0]);
        return match &status[0].canonical {
            Some(path) => Ok(path.clone()),
            None => Ok(paths.swap_remove(0)),
        };
    }
    if status.len() > 1 && status[1].is_file {
        assert(flags[1]);
        return match &status[1].canonical {
            Some(path) => Ok(path.clone()),
            None => Ok(paths.swap_remove(1)),
        };
    }
    Err(Error::BinaryNotFound(join(exe_dir, BINARY_NAME)))
}

impl SearchPlaces {
    /// Where the helper can be, in the order in which to look.
    pub fn candidates(&self) -> (r: Vec<PathBuf>)
        ensures
            r@ == search_paths(*self),
    {
        let mut paths: Vec<PathBuf> = Vec::new();
        if let Some(dir) = &self.working_dir {
            paths.push(join(&join(dir, "swift/.build/release"), BINARY_NAME));
            paths.push(join(&join(dir, "swift/.build/debug"), BINARY_NAME));
        }
        if let Some(dir) = &self.executable_dir {
            paths.push(join(dir, BINARY_NAME));
        }
        let ghost fixed = paths@;
        let mut next: usize = 0;
        while next < self.search_path.len()
            invariant
                next <= self.search_path@.len(),
                paths@.len() == fixed.len() + next,
                forall|i: int| 0 <= i < fixed.len() ==> paths@[i] == fixed[i],
                forall|i: int|
                    0 <= i < next ==> #[trigger] paths@[fixed.len() + i] == helper_in(
                        self.search_path@[i],
                    ),
            decreases self.search_path@.len() - next,
        {
            paths.push(join(&self.search_path[next], BINARY_NAME));
            next = next + 1;
        }
        proof {
            let along = self.search_path@.map_values(|dir: PathBuf| helper_in(dir));
            assert(paths@ =~= fixed + along) by {
                assert forall|i: int| 0 <= i < along.len() implies paths@[fixed.len() + i]
                    == along[i] by {}
                assert forall|i: int| 0 <= i < paths@.len() implies paths@[i] == (fixed
                    + along)[i] by {
                    if i >= fixed.len() {
                        assert(paths@[fixed.len() + (i - fixed.len())] == along[i - fixed.len()]);
                    }
                }
            }
            assert(fixed + along =~= search_paths(*self));
        }
        paths
    }

    /// The first candidate that is a file, given of each candidate whether it is one.
    pub fn first_found(&self, is_file: &Vec<bool>) -> (r: Result<PathBuf, Error>)
        ensures
            match first_file(is_file@, search_paths(*self).len() as int) {
                Some(at) => r == Ok::<PathBuf, Error>(search_paths(*self)[at]),
                None => r matches Err(error) && error@ == ErrorView::BinaryNotFound(
                    path_of(BINARY_NAME@),
                ),
            },
    {
        let mut paths = self.candidates();
        let ghost all = paths@;
        let mut next: usize = 0;
        while next < paths.len() && next < is_file.len()
            invariant
                paths@ == all,
                all == search_paths(*self),
                next <= all.len(),
                next <= is_file@.len(),
                first_file(is_file@, next as int) is None,
            decreases all.len() - next,
        {
            if is_file[next] {
                proof {
                    lemma_first_file_is_kept(is_file@, next + 1, all.len() as int);
                }
                return Ok(paths.swap_remove(next));
            }
            next = next + 1;
        }
        proof {
            first_file_is_the_first(is_file@, next as int);
            first_file_is_the_first(is_file@, all.len() as int);
        }
        Err(Error::BinaryNotFound(path_from(BINARY_NAME)))
    }
}

/// The path that a value of the environment variable names: none where the variable is not set or
/// empty.
pub open spec fn env_path(raw: Option<PathBuf>) -> Option<PathBuf> {
    match raw {
        Some(path) => if is_empty_path(path) {
            None
        } else {
            Some(path)
        },
        None => None,
    }
}

/// The path that a value of [`BINARY_ENV_VAR`] names.
pub(crate) fn read_env_path(raw: Option<PathBuf>) -> (r: Result<PathBuf, Error>)
    ensures
        match raw {
            Some(path) => if is_empty_path(path) {
                r matches Err(error) && error@ == ErrorView::Protocol(
                    BINARY_ENV_VAR@ + " is set but empty"@,
                )
            } else {
                r == Ok::<PathBuf, Error>(path)
            },
            None => r matches Err(error) && error@ == ErrorView::Protocol(
                BINARY_ENV_VAR@ + " is not set"@,
            ),
        },
{
    match raw {
        Some(path) => if path_is_empty(&path) {
            Err(Error::Protocol(join2(BINARY_ENV_VAR, " is set but empty")))
        } else {
            Ok(path)
        },
        None => Err(Error::Protocol(join2(BINARY_ENV_VAR, " is not set"))),
    }
}

} // verus!

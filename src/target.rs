use vstd::prelude::*;

verus! {

/// The path `p` resolved against the directory `base`, as the platform's
/// path rules join them.
pub uninterp spec fn joined_path(base: Seq<char>, p: Seq<char>) -> Seq<char>;

/// The parent directory of the path `p`, if it has one.
pub uninterp spec fn parent_path(p: Seq<char>) -> Option<Seq<char>>;

/// Relies on `std::path::Path::join`: the result depends on the two paths alone.
#[verifier::external_body]
fn join_path(base: &str, p: &str) -> (r: String)
    ensures
        r@ == joined_path(base@, p@),
{
    std::path::Path::new(base).join(p).to_string_lossy().into_owned()
}

/// Relies on `std::path::Path::parent`: the result depends on the path alone.
#[verifier::external_body]
fn parent_of(p: &str) -> (r: Option<String>)
    ensures
        match r {
            Some(q) => parent_path(p@) == Some(q@),
            None => parent_path(p@) is None,
        },
{
    std::path::Path::new(p).parent().map(|q| q.to_string_lossy().into_owned())
}

/// The characters of an optional owned string.
pub open spec fn owned_view(o: Option<String>) -> Option<Seq<char>> {
    match o {
        Some(x) => Some(x@),
        None => None,
    }
}

/// The characters of an optional borrowed string.
pub open spec fn borrowed_view(o: Option<&str>) -> Option<Seq<char>> {
    match o {
        Some(x) => Some(x@),
        None => None,
    }
}

/// What is run and what is watched. Fixed once the tool has started.
#[derive(Debug)]
pub struct WatchTarget {
    /// The program to run, as an absolute path.
    pub binary_path: String,
    /// The directory tree to watch.
    pub watch_dir: String,
}

/// The directory watched for `binary_path`: `watch_dir` when one is given,
/// else the program's parent directory, if it has one.
pub open spec fn chosen_dir(watch_dir: Option<Seq<char>>, binary_parent: Option<Seq<char>>) -> Option<
    Seq<char>,
> {
    match watch_dir {
        Some(w) => Some(w),
        None => binary_parent,
    }
}

/// The program and watched directory given a working directory `cwd`, the
/// program's path and an optional directory to watch, both relative to `cwd`.
pub open spec fn resolved(cwd: Seq<char>, binary_path: Seq<char>, watch_dir: Option<Seq<char>>) -> Option<
    (Seq<char>, Seq<char>),
> {
    let binary = joined_path(cwd, binary_path);
    let dir = match watch_dir {
        Some(w) => Some(joined_path(cwd, w)),
        None => None,
    };
    match chosen_dir(dir, parent_path(binary)) {
        Some(d) => Some((binary, d)),
        None => None,
    }
}

impl WatchTarget {
    /// The target for the already resolved `binary_path`: it watches
    /// `watch_dir` when one is given, else `binary_parent`; with neither there
    /// is nothing to watch and the result is `None`.
    pub fn with_default_dir(
        binary_path: String,
        watch_dir: Option<String>,
        binary_parent: Option<String>,
    ) -> (r: Option<WatchTarget>)
        ensures
            match r {
                Some(t) => t.binary_path@ == binary_path@ && chosen_dir(
                    owned_view(watch_dir),
                    owned_view(binary_parent),
                ) == Some(t.watch_dir@),
                None => chosen_dir(
                    owned_view(watch_dir),
                    owned_view(binary_parent),
                ) is None,
            },
    {
        let dir = match watch_dir {
            Some(w) => Some(w),
            None => binary_parent,
        };
        match dir {
            Some(d) => Some(WatchTarget { binary_path, watch_dir: d }),
            None => None,
        }
    }

    /// Resolves the program and the watched directory against `cwd`. `None`
    /// when no directory is given and the program's path has no parent.
    pub fn resolve(cwd: &str, binary_path: &str, watch_dir: Option<&str>) -> (r: Option<WatchTarget>)
        ensures
            match r {
                Some(t) => resolved(cwd@, binary_path@, borrowed_view(watch_dir)) == Some(
                    (t.binary_path@, t.watch_dir@),
                ),
                None => resolved(cwd@, binary_path@, borrowed_view(watch_dir)) is None,
            },
    {
        let binary = join_path(cwd, binary_path);
        let dir = match watch_dir {
            Some(w) => Some(join_path(cwd, w)),
            None => None,
        };
        let parent = parent_of(binary.as_str());
        WatchTarget::with_default_dir(binary, dir, parent)
    }
}

} // verus!

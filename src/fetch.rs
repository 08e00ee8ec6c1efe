use vstd::prelude::*;

verus! {

/// One network download: fetch `url` and write the body to `dest`.
#[derive(Debug, Clone)]
pub struct Download {
    pub url: String,
    pub dest: String,
}

/// What the fetcher does for `url` and `dest`: nothing when `dest` exists,
/// else one download of `url` into `dest`.
pub open spec fn fetch_spec(url: Seq<char>, dest: Seq<char>, dest_exists: bool) -> Option<(Seq<char>, Seq<char>)> {
    if dest_exists {
        None
    } else {
        Some((url, dest))
    }
}

/// The paths that exist after a fetch has run on a filesystem holding `fs`.
pub open spec fn after_fetch(fs: Set<Seq<char>>, fetched: Option<(Seq<char>, Seq<char>)>) -> Set<Seq<char>> {
    match fetched {
        Some((_url, dest)) => fs.insert(dest),
        None => fs,
    }
}

pub open spec fn download_count(fetched: Option<(Seq<char>, Seq<char>)>) -> nat {
    if fetched is Some {
        1
    } else {
        0
    }
}

/// Skip-if-exists download: `None` when the destination is already there.
pub fn fetch(url: &str, dest: &str, dest_exists: bool) -> (r: Option<Download>)
    ensures
        match r {
            Some(d) => fetch_spec(url@, dest@, dest_exists) == Some((d.url@, d.dest@)),
            None => fetch_spec(url@, dest@, dest_exists) is None,
        },
{
    if dest_exists {
        None
    } else {
        Some(Download { url: String::from_str(url), dest: String::from_str(dest) })
    }
}

/// Fetching twice into one destination performs at most one download: once the first
/// fetch has run, the destination exists and the second fetch does nothing.
pub proof fn lemma_fetch_twice(fs: Set<Seq<char>>, url: Seq<char>, dest: Seq<char>)
    ensures
        ({
            let first = fetch_spec(url, dest, fs.contains(dest));
            let second = fetch_spec(url, dest, after_fetch(fs, first).contains(dest));
            &&& second is None
            &&& download_count(first) + download_count(second) <= 1
        }),
{
}

} // verus!

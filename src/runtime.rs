use vstd::prelude::*;

verus! {

/// The platform that the runtime is provisioned for.
#[derive(Debug, Clone, Copy, PartialEq, Eq, Structural)]
pub enum Platform {
    Windows,
    Linux,
    Other,
}

/// The runtime distribution for a platform: a zip on Windows, a compressed tar on
/// Linux, none elsewhere.
pub open spec fn runtime_url_spec(p: Platform) -> Option<Seq<char>> {
    match p {
        Platform::Windows => Some("https://nodejs.org/dist/v12.13.1/node-v12.13.1-win-x64.zip"@),
        Platform::Linux => Some(
            "https://nodejs.org/dist/v12.13.0/node-v12.13.0-linux-x64.tar.xz"@,
        ),
        Platform::Other => None,
    }
}

/// Where the package manager lies inside the extracted runtime.
pub open spec fn npm_spec(p: Platform) -> Option<Seq<char>> {
    match p {
        Platform::Windows => Some("npm.cmd"@),
        Platform::Linux => Some("bin/npm"@),
        Platform::Other => None,
    }
}

pub fn runtime_url(p: Platform) -> (r: Option<&'static str>)
    ensures
        match r {
            Some(u) => runtime_url_spec(p) == Some(u@),
            None => runtime_url_spec(p) is None,
        },
{
    match p {
        Platform::Windows => Some("https://nodejs.org/dist/v12.13.1/node-v12.13.1-win-x64.zip"),
        Platform::Linux => Some("https://nodejs.org/dist/v12.13.0/node-v12.13.0-linux-x64.tar.xz"),
        Platform::Other => None,
    }
}

pub fn npm_program(p: Platform) -> (r: Option<&'static str>)
    ensures
        match r {
            Some(n) => npm_spec(p) == Some(n@),
            None => npm_spec(p) is None,
        },
{
    match p {
        Platform::Windows => Some("npm.cmd"),
        Platform::Linux => Some("bin/npm"),
        Platform::Other => None,
    }
}

/// Number of characters before the last segment of `s`: one past its last `/`,
/// or zero when there is none.
pub open spec fn last_segment_start(s: Seq<char>) -> int
    decreases s.len(),
{
    if s.len() == 0 {
        0
    } else if s.last() == '/' {
        s.len() as int
    } else {
        last_segment_start(s.drop_last())
    }
}

/// The text after the last `/`: the file name that a URL's path ends in.
pub open spec fn last_segment(s: Seq<char>) -> Seq<char> {
    s.skip(last_segment_start(s))
}

proof fn lemma_last_segment_start(s: Seq<char>, k: int)
    requires
        0 <= k <= s.len(),
        k > 0 ==> s[k - 1] == '/',
        forall|j: int| k <= j < s.len() ==> s[j] != '/',
    ensures
        last_segment_start(s) == k,
    decreases s.len(),
{
    if s.len() > 0 && k < s.len() {
        let t = s.drop_last();
        assert forall|j: int| k <= j < t.len() implies t[j] != '/' by {
            assert(t[j] == s[j]);
        }
        if k > 0 {
            assert(t[k - 1] == s[k - 1]);
        }
        lemma_last_segment_start(t, k);
    }
}

/// File name under which a downloaded URL is stored.
pub fn file_name_of(url: &str) -> (r: String)
    ensures
        r@ == last_segment(url@),
{
    let n = url.unicode_len();
    let mut k: usize = n;
    while k > 0 && url.get_char(k - 1) != '/'
        invariant
            n == url@.len(),
            0 <= k <= n,
            forall|j: int| k <= j < n ==> url@[j] != '/',
        decreases k,
    {
        k = k - 1;
    }
    proof {
        lemma_last_segment_start(url@, k as int);
    }
    String::from_str(url.substring_char(k, n))
}

/// A path that the search for the runtime archive matched.
#[derive(Debug, Clone)]
pub struct Candidate {
    pub path: String,
    pub is_dir: bool,
}

/// Index of the first candidate that is not a directory.
pub open spec fn first_file(c: Seq<Candidate>) -> Option<int>
    decreases c.len(),
{
    if c.len() == 0 {
        None
    } else if !c[0].is_dir {
        Some(0)
    } else {
        match first_file(c.drop_first()) {
            Some(k) => Some(k + 1),
            None => None,
        }
    }
}

proof fn lemma_first_file(c: Seq<Candidate>, k: int)
    requires
        0 <= k <= c.len(),
        forall|j: int| 0 <= j < k ==> c[j].is_dir,
    ensures
        k < c.len() && !c[k].is_dir ==> first_file(c) == Some(k),
        k == c.len() ==> first_file(c) is None,
    decreases c.len(),
{
    if c.len() > 0 && k > 0 {
        let t = c.drop_first();
        assert forall|j: int| 0 <= j < k - 1 implies t[j].is_dir by {
            assert(t[j] == c[j + 1]);
        }
        if k < c.len() {
            assert(t[k - 1] == c[k]);
        }
        lemma_first_file(t, k - 1);
    }
}

/// The runtime archive among the matches: the first that is not a directory.
pub fn pick_runtime_archive(candidates: &Vec<Candidate>) -> (r: Option<String>)
    ensures
        match r {
            Some(p) => first_file(candidates@) matches Some(k) && p@ == candidates@[k].path@,
            None => first_file(candidates@) is None,
        },
{
    let mut i: usize = 0;
    while i < candidates.len()
        invariant
            0 <= i <= candidates@.len(),
            forall|j: int| 0 <= j < i ==> candidates@[j].is_dir,
        decreases candidates@.len() - i,
    {
        if !candidates[i].is_dir {
            proof {
                lemma_first_file(candidates@, i as int);
            }
            return Some(candidates[i].path.clone());
        }
        i = i + 1;
    }
    proof {
        lemma_first_file(candidates@, i as int);
    }
    None
}

} // verus!

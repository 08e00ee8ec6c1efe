use vstd::prelude::*;

use crate::error::WikiError;
use crate::urls::{parse_url, url_parsed};
use crate::strings::{find_char, index_of, lemma_index_of_bounds, lemma_index_of_is};

verus! {

/// The parts of `owner/repo[:branch]`: text before the first `:` splits on its first `/`
/// into owner and repository; text after the first `:`, up to the next one, is the
/// branch, `master` when there is no `:`. `None` when the owner or the repository is missing or empty.
pub open spec fn parse_spec(s: Seq<char>) -> Option<(Seq<char>, Seq<char>, Seq<char>)> {
    let c = index_of(s, ':');
    let head = s.take(c);
    let rest = s.skip(c + 1);
    let branch = if c < s.len() {
        rest.take(index_of(rest, ':'))
    } else {
        "master"@
    };
    let d = index_of(head, '/');
    let owner = head.take(d);
    let repo = head.skip(d + 1);
    if d < head.len() && owner.len() > 0 && repo.len() > 0 {
        Some((owner, repo, branch))
    } else {
        None
    }
}

/// `https://github.com/<owner>/<repo>/archive/<branch>.zip`
pub open spec fn archive_url_spec(owner: Seq<char>, repo: Seq<char>, branch: Seq<char>) -> Seq<char> {
    "https://github.com/"@ + owner + "/"@ + repo + "/archive/"@ + branch + ".zip"@
}

/// `<repo>-<branch>`
pub open spec fn dir_spec(repo: Seq<char>, branch: Seq<char>) -> Seq<char> {
    repo + "-"@ + branch
}

/// `<repo>-<branch>.zip`
pub open spec fn zip_spec(repo: Seq<char>, branch: Seq<char>) -> Seq<char> {
    repo + "-"@ + branch + ".zip"@
}

/// A remote code bundle named by `owner/repo[:branch]`.
#[derive(Debug, Clone)]
pub struct Branch {
    pub path_spec: String,
    pub user: String,
    pub repo: String,
    pub branch: String,
}

impl Branch {
    /// The stored parts are those that the spec text parses to.
    pub open spec fn wf(&self) -> bool {
        parse_spec(self.path_spec@) == Some((self.user@, self.repo@, self.branch@))
    }

    pub open spec fn archive_url_view(&self) -> Seq<char> {
        archive_url_spec(self.user@, self.repo@, self.branch@)
    }

    pub open spec fn dir_view(&self) -> Seq<char> {
        dir_spec(self.repo@, self.branch@)
    }

    pub open spec fn zip_view(&self) -> Seq<char> {
        zip_spec(self.repo@, self.branch@)
    }

    /// Parses a branch spec; fails exactly when the owner or repository is missing.
    pub fn parse(spec: &str) -> (r: Result<Branch, WikiError>)
        ensures
            match r {
                Ok(b) => b.wf() && b.path_spec@ == spec@,
                Err(e) => parse_spec(spec@) is None && (e matches WikiError::BranchSpec(t) && t@ == spec@),
            },
    {
        proof {
            lemma_index_of_bounds(spec@, ':');
        }
        let n = spec.unicode_len();
        let c = find_char(spec, ':');
        let head = spec.substring_char(0, c);
        assert(head@ == spec@.take(c as int));
        let branch = if c < n {
            let rest = spec.substring_char(c + 1, n);
            proof {
                lemma_index_of_bounds(rest@, ':');
            }
            let k = find_char(rest, ':');
            String::from_str(rest.substring_char(0, k))
        } else {
            String::from_str("master")
        };
        proof {
            lemma_index_of_bounds(head@, '/');
        }
        let hn = head.unicode_len();
        let d = find_char(head, '/');
        if d < hn {
            let owner = head.substring_char(0, d);
            let repo = head.substring_char(d + 1, hn);
            assert(repo@ == head@.skip(d + 1));
            if owner.unicode_len() > 0 && repo.unicode_len() > 0 {
                return Ok(
                    Branch {
                        path_spec: String::from_str(spec),
                        user: String::from_str(owner),
                        repo: String::from_str(repo),
                        branch,
                    },
                );
            }
        }
        Err(WikiError::BranchSpec(String::from_str(spec)))
    }

    /// A copy with the same fields.
    pub fn duplicate(&self) -> (r: Branch)
        ensures
            r == *self,
    {
        Branch {
            path_spec: self.path_spec.clone(),
            user: self.user.clone(),
            repo: self.repo.clone(),
            branch: self.branch.clone(),
        }
    }

    /// Owner, repository and branch.
    pub fn user_repo_branch(&self) -> (r: (&str, &str, &str))
        requires
            self.wf(),
        ensures
            parse_spec(self.path_spec@) == Some((r.0@, r.1@, r.2@)),
    {
        (self.user.as_str(), self.repo.as_str(), self.branch.as_str())
    }

    /// The archive URL, before any normalisation.
    pub fn archive_url(&self) -> (r: String)
        requires
            self.wf(),
        ensures
            r@ == self.archive_url_view(),
    {
        let (user, repo, branch) = self.user_repo_branch();
        let s = String::from_str("https://github.com/");
        let s = s.concat(user);
        let s = s.concat("/");
        let s = s.concat(repo);
        let s = s.concat("/archive/");
        let s = s.concat(branch);
        s.concat(".zip")
    }

    /// The archive URL as the `url` crate normalises it; fails when it does not parse.
    pub fn url(&self) -> (r: Result<String, WikiError>)
        requires
            self.wf(),
        ensures
            match r {
                Ok(u) => url_parsed(self.archive_url_view()) == Some(u@),
                Err(e) => url_parsed(self.archive_url_view()) is None && (e matches WikiError::Url(
                    t,
                ) && t@ == self.archive_url_view()),
            },
    {
        let text = self.archive_url();
        match parse_url(text.as_str()) {
            Some(u) => Ok(u),
            None => Err(WikiError::Url(text)),
        }
    }

    /// Name of the directory that the archive extracts to.
    pub fn dir(&self) -> (r: String)
        requires
            self.wf(),
        ensures
            r@ == self.dir_view(),
    {
        let (_user, repo, branch) = self.user_repo_branch();
        let s = String::from_str(repo);
        let s = s.concat("-");
        s.concat(branch)
    }

    /// File name under which the archive is stored.
    pub fn zip(&self) -> (r: String)
        requires
            self.wf(),
        ensures
            r@ == self.zip_view(),
    {
        let s = self.dir();
        s.concat(".zip")
    }
}

/// A spec `owner/repo` without a branch names the `master` branch, and its archive
/// extracts to `repo-master`.
pub proof fn lemma_branch_defaults_to_master(owner: Seq<char>, repo: Seq<char>)
    requires
        owner.len() > 0,
        repo.len() > 0,
        !owner.contains('/'),
        !owner.contains(':'),
        !repo.contains(':'),
    ensures
        parse_spec(owner + seq!['/'] + repo) == Some((owner, repo, "master"@)),
        dir_spec(repo, "master"@) == repo + "-master"@,
{
    let s = owner + seq!['/'] + repo;
    assert forall|j: int| 0 <= j < s.len() implies s[j] != ':' by {
        if j < owner.len() {
            assert(s[j] == owner[j]);
        } else if j > owner.len() {
            assert(s[j] == repo[j - owner.len() - 1]);
        }
    }
    lemma_index_of_is(s, ':', s.len() as int);
    assert(s.take(s.len() as int) == s);
    assert forall|j: int| 0 <= j < owner.len() implies s[j] != '/' by {
        assert(s[j] == owner[j]);
    }
    lemma_index_of_is(s, '/', owner.len() as int);
    assert(s.take(owner.len() as int) == owner);
    assert(s.skip(owner.len() as int + 1) == repo);
    reveal_strlit("master");
    reveal_strlit("-master");
    reveal_strlit("-");
    assert(dir_spec(repo, "master"@) == repo + "-master"@);
}

/// A spec `owner/repo:x` names branch `x`, and its archive URL ends in `/archive/x.zip`;
/// text after a second `:` is not part of the branch.
pub proof fn lemma_archive_url_names_branch(
    owner: Seq<char>,
    repo: Seq<char>,
    x: Seq<char>,
    tail: Seq<char>,
)
    requires
        owner.len() > 0,
        repo.len() > 0,
        !owner.contains('/'),
        !owner.contains(':'),
        !repo.contains(':'),
        !x.contains(':'),
        tail.len() == 0 || tail[0] == ':',
    ensures
        parse_spec(owner + seq!['/'] + repo + seq![':'] + x + tail) == Some((owner, repo, x)),
        ({
            let u = archive_url_spec(owner, repo, x);
            let t = "/archive/"@ + x + ".zip"@;
            u.len() >= t.len() && u.skip(u.len() - t.len()) == t
        }),
{
    let head = owner + seq!['/'] + repo;
    let s = head + seq![':'] + x + tail;
    assert forall|j: int| 0 <= j < head.len() implies s[j] != ':' by {
        assert(s[j] == head[j]);
        if j < owner.len() {
            assert(head[j] == owner[j]);
        } else if j > owner.len() {
            assert(head[j] == repo[j - owner.len() - 1]);
        }
    }
    lemma_index_of_is(s, ':', head.len() as int);
    assert(s.take(head.len() as int) == head);
    let rest = s.skip(head.len() as int + 1);
    assert(rest == x + tail);
    assert forall|j: int| 0 <= j < x.len() implies rest[j] != ':' by {
        assert(rest[j] == x[j]);
    }
    if tail.len() > 0 {
        assert(rest[x.len() as int] == tail[0]);
    }
    lemma_index_of_is(rest, ':', x.len() as int);
    assert(rest.take(x.len() as int) == x);
    assert forall|j: int| 0 <= j < owner.len() implies head[j] != '/' by {
        assert(head[j] == owner[j]);
    }
    lemma_index_of_is(head, '/', owner.len() as int);
    assert(head.take(owner.len() as int) == owner);
    assert(head.skip(owner.len() as int + 1) == repo);
    let p = "https://github.com/"@ + owner + "/"@ + repo;
    let t = "/archive/"@ + x + ".zip"@;
    let u = archive_url_spec(owner, repo, x);
    assert(u == p + t);
    assert(u.skip(u.len() - t.len()) == t);
}

} // verus!

use vstd::prelude::*;

use crate::branch::{lemma_branch_defaults_to_master, parse_spec, Branch};
use crate::error::WikiError;
use crate::fetch::Download;
use crate::runtime::{npm_program, npm_spec, Platform};
use crate::strings::{join, join_path};
use crate::urls::url_parsed;

verus! {

/// `s` with every `~` replaced by `home`.
pub open spec fn expand_home(s: Seq<char>, home: Seq<char>) -> Seq<char>
    decreases s.len(),
{
    if s.len() == 0 {
        seq![]
    } else {
        expand_home(s.drop_last(), home) + if s.last() == '~' {
            home
        } else {
            seq![s.last()]
        }
    }
}

/// The text views of a list of strings.
pub open spec fn views(v: Seq<String>) -> Seq<Seq<char>> {
    v.map_values(|s: String| s@)
}

/// The flag that every package-manager call starts with.
pub open spec fn npm_prefix() -> Seq<char> {
    "--scripts-prepend-node-path=true"@
}

/// Where the runtime came from and where it was extracted, relative to the root.
#[derive(Debug, Clone)]
pub struct NodeConfig {
    pub url: Option<String>,
    pub path: Option<String>,
}

/// A record with nothing in it is the default one, left out of the persisted document.
pub fn is_default(node: &NodeConfig) -> (r: bool)
    ensures
        r == (node.url is None && node.path is None),
{
    node.url.is_none() && node.path.is_none()
}

/// One synchronous package-manager call.
#[derive(Debug, Clone)]
pub struct NpmCall {
    pub program: String,
    pub dir: String,
    pub args: Vec<String>,
}

/// Removal of `target` when `guard` exists.
#[derive(Debug, Clone)]
pub struct Removal {
    pub guard: String,
    pub target: String,
}

/// The state of one install.
#[derive(Debug, Clone)]
pub struct WikiConfig {
    /// Root directory as written by the user; `~` stands for `home`.
    pub dir: String,
    pub home: String,
    pub platform: Platform,
    pub wiki: Branch,
    pub server: Branch,
    pub client: Branch,
    pub plugins: Vec<Branch>,
    pub node: NodeConfig,
}

/// `s` with every `~` replaced by `home`.
pub fn expand_tilde(s: &str, home: &str) -> (r: String)
    ensures
        r@ == expand_home(s@, home@),
{
    let n = s.unicode_len();
    let mut out = String::new();
    let mut i: usize = 0;
    while i < n
        invariant
            n == s@.len(),
            0 <= i <= n,
            out@ == expand_home(s@.take(i as int), home@),
        decreases n - i,
    {
        let c = s.get_char(i);
        let piece = if c == '~' {
            home
        } else {
            s.substring_char(i, i + 1)
        };
        proof {
            let t = s@.take(i + 1);
            assert(t.drop_last() =~= s@.take(i as int));
            assert(t.last() == c);
        }
        out.append(piece);
        i = i + 1;
    }
    assert(s@.take(n as int) =~= s@);
    out
}

/// Where an install goes when no directory is given: `wiki` under the home directory.
pub fn default_dir(home: &str) -> (r: String)
    ensures
        r@ == join_path(home@, "wiki"@),
{
    join(home, "wiki")
}

/// Builds a branch from literal parts that are known to parse.
fn known_branch(spec: &str, user: &str, repo: &str) -> (r: Branch)
    requires
        parse_spec(spec@) == Some((user@, repo@, "master"@)),
    ensures
        r.wf(),
        r.path_spec@ == spec@,
{
    Branch {
        path_spec: String::from_str(spec),
        user: String::from_str(user),
        repo: String::from_str(repo),
        branch: String::from_str("master"),
    }
}

impl WikiConfig {
    pub open spec fn wf(&self) -> bool {
        &&& self.wiki.wf()
        &&& self.server.wf()
        &&& self.client.wf()
        &&& forall|i: int| 0 <= i < self.plugins@.len() ==> (#[trigger] self.plugins@[i]).wf()
    }

    pub open spec fn root_view(&self) -> Seq<char> {
        expand_home(self.dir@, self.home@)
    }

    pub open spec fn config_path_view(&self) -> Seq<char> {
        join_path(self.root_view(), "config.yaml"@)
    }

    pub open spec fn dir_of(&self, b: Branch) -> Seq<char> {
        join_path(self.root_view(), b.dir_view())
    }

    pub open spec fn zip_of(&self, b: Branch) -> Seq<char> {
        join_path(self.root_view(), b.zip_view())
    }

    /// The bundles in the order in which they are provisioned.
    pub open spec fn bundles_view(&self) -> Seq<Branch> {
        seq![self.wiki, self.client, self.server] + self.plugins@
    }

    pub open spec fn runtime_dir_view(&self) -> Option<Seq<char>> {
        match self.node.path {
            Some(p) => Some(join_path(self.root_view(), p@)),
            None => None,
        }
    }

    /// The package manager's path: inside the recorded runtime, where the platform puts it.
    pub open spec fn npm_view(&self) -> Option<Seq<char>> {
        match (self.runtime_dir_view(), npm_spec(self.platform)) {
            (Some(d), Some(n)) => Some(join_path(d, n)),
            _ => None,
        }
    }

    /// `c` runs the package manager in `dir` with the fixed flag and then `args`.
    pub open spec fn is_npm_call(&self, c: NpmCall, dir: Seq<char>, args: Seq<Seq<char>>) -> bool {
        &&& self.npm_view() == Some(c.program@)
        &&& c.dir@ == dir
        &&& views(c.args@) == seq![npm_prefix()] + args
    }

    /// Why no package-manager call can be made, if it cannot.
    pub open spec fn npm_refusal(&self, e: WikiError) -> bool {
        if self.node.path is None {
            e == WikiError::NoRuntime
        } else {
            npm_spec(self.platform) is None && e == WikiError::UnsupportedPlatform
        }
    }

    /// Directory and arguments of step `i` of the dependency linker: install the
    /// client's and the server's dependencies, link both into the core app, then
    /// install the core app's dependencies.
    pub open spec fn linker_step(&self, i: int) -> (Seq<char>, Seq<Seq<char>>) {
        let wiki = self.dir_of(self.wiki);
        if i == 0 {
            (self.dir_of(self.client), seq!["install"@])
        } else if i == 1 {
            (self.dir_of(self.server), seq!["install"@])
        } else if i == 2 {
            (wiki, seq!["link"@, self.dir_of(self.client)])
        } else if i == 3 {
            (wiki, seq!["link"@, self.dir_of(self.server)])
        } else {
            (wiki, seq!["install"@])
        }
    }

    pub open spec fn start_args() -> Seq<Seq<char>> {
        seq![
            "start"@,
            "--"@,
            "--security_type"@,
            "friends"@,
            "--cookie_secret"@,
            "a secret"@,
            "--farm"@,
        ]
    }

    /// A fresh configuration for `dir`, with the default bundles and no runtime.
    pub fn new(dir: &str, home: &str, platform: Platform) -> (r: WikiConfig)
        ensures
            r.wf(),
            r.dir@ == dir@,
            r.home@ == home@,
            r.platform == platform,
            r.wiki.path_spec@ == "fedwiki/wiki"@,
            r.server.path_spec@ == "fedwiki/wiki-server"@,
            r.client.path_spec@ == "fedwiki/wiki-client"@,
            r.plugins@.len() == 0,
            r.node.url is None,
            r.node.path is None,
    {
        proof {
            reveal_strlit("fedwiki");
            reveal_strlit("wiki");
            reveal_strlit("wiki-server");
            reveal_strlit("wiki-client");
            reveal_strlit("fedwiki/wiki");
            reveal_strlit("fedwiki/wiki-server");
            reveal_strlit("fedwiki/wiki-client");
            assert("fedwiki/wiki"@ =~= "fedwiki"@ + seq!['/'] + "wiki"@);
            assert("fedwiki/wiki-server"@ =~= "fedwiki"@ + seq!['/'] + "wiki-server"@);
            assert("fedwiki/wiki-client"@ =~= "fedwiki"@ + seq!['/'] + "wiki-client"@);
            lemma_branch_defaults_to_master("fedwiki"@, "wiki"@);
            lemma_branch_defaults_to_master("fedwiki"@, "wiki-server"@);
            lemma_branch_defaults_to_master("fedwiki"@, "wiki-client"@);
        }
        WikiConfig {
            dir: String::from_str(dir),
            home: String::from_str(home),
            platform,
            wiki: known_branch("fedwiki/wiki", "fedwiki", "wiki"),
            server: known_branch("fedwiki/wiki-server", "fedwiki", "wiki-server"),
            client: known_branch("fedwiki/wiki-client", "fedwiki", "wiki-client"),
            plugins: Vec::new(),
            node: NodeConfig { url: None, path: None },
        }
    }

    /// The root directory with `~` expanded.
    pub fn canonical_dir(&self) -> (r: String)
        ensures
            r@ == self.root_view(),
    {
        expand_tilde(self.dir.as_str(), self.home.as_str())
    }

    /// Path of the persisted document.
    pub fn config_path(&self) -> (r: String)
        ensures
            r@ == self.config_path_view(),
    {
        join(self.canonical_dir().as_str(), "config.yaml")
    }

    pub fn bundle_dir(&self, b: &Branch) -> (r: String)
        requires
            b.wf(),
        ensures
            r@ == self.dir_of(*b),
    {
        join(self.canonical_dir().as_str(), b.dir().as_str())
    }

    pub fn bundle_zip(&self, b: &Branch) -> (r: String)
        requires
            b.wf(),
        ensures
            r@ == self.zip_of(*b),
    {
        join(self.canonical_dir().as_str(), b.zip().as_str())
    }

    pub fn wiki_dir(&self) -> (r: String)
        requires
            self.wf(),
        ensures
            r@ == self.dir_of(self.wiki),
    {
        self.bundle_dir(&self.wiki)
    }

    pub fn client_dir(&self) -> (r: String)
        requires
            self.wf(),
        ensures
            r@ == self.dir_of(self.client),
    {
        self.bundle_dir(&self.client)
    }

    pub fn server_dir(&self) -> (r: String)
        requires
            self.wf(),
        ensures
            r@ == self.dir_of(self.server),
    {
        self.bundle_dir(&self.server)
    }

    pub fn wiki_zip(&self) -> (r: String)
        requires
            self.wf(),
        ensures
            r@ == self.zip_of(self.wiki),
    {
        self.bundle_zip(&self.wiki)
    }

    pub fn client_zip(&self) -> (r: String)
        requires
            self.wf(),
        ensures
            r@ == self.zip_of(self.client),
    {
        self.bundle_zip(&self.client)
    }

    pub fn server_zip(&self) -> (r: String)
        requires
            self.wf(),
        ensures
            r@ == self.zip_of(self.server),
    {
        self.bundle_zip(&self.server)
    }

    /// The core app, the client, the server, then the plugins.
    pub fn bundles(&self) -> (r: Vec<Branch>)
        requires
            self.wf(),
        ensures
            r@ == self.bundles_view(),
    {
        let mut r: Vec<Branch> = Vec::new();
        r.push(self.wiki.duplicate());
        r.push(self.client.duplicate());
        r.push(self.server.duplicate());
        let mut i: usize = 0;
        while i < self.plugins.len()
            invariant
                0 <= i <= self.plugins@.len(),
                r@ == seq![self.wiki, self.client, self.server] + self.plugins@.take(i as int),
            decreases self.plugins@.len() - i,
        {
            r.push(self.plugins[i].duplicate());
            assert(self.plugins@.take(i + 1) =~= self.plugins@.take(i as int).push(self.plugins@[i as int]));
            i = i + 1;
        }
        assert(self.plugins@.take(self.plugins@.len() as int) =~= self.plugins@);
        r
    }

    /// A package-manager call in `dir`; fails when no runtime path is recorded or the
    /// platform has no package manager.
    pub fn run_npm(&self, dir: &str, args: &Vec<String>) -> (r: Result<NpmCall, WikiError>)
        ensures
            match r {
                Ok(c) => self.is_npm_call(c, dir@, views(args@)),
                Err(e) => self.npm_refusal(e),
            },
    {
        let path = match &self.node.path {
            Some(p) => p,
            None => {
                return Err(WikiError::NoRuntime);
            },
        };
        let npm = match npm_program(self.platform) {
            Some(n) => n,
            None => {
                return Err(WikiError::UnsupportedPlatform);
            },
        };
        let runtime = join(self.canonical_dir().as_str(), path.as_str());
        let program = join(runtime.as_str(), npm);
        let mut all: Vec<String> = Vec::new();
        all.push(String::from_str("--scripts-prepend-node-path=true"));
        let mut i: usize = 0;
        while i < args.len()
            invariant
                0 <= i <= args@.len(),
                views(all@) == seq![npm_prefix()] + views(args@.take(i as int)),
            decreases args@.len() - i,
        {
            let ghost before = all@;
            all.push(args[i].clone());
            assert(args@.take(i + 1) =~= args@.take(i as int).push(args@[i as int]));
            assert(views(all@) =~= views(before).push(args@[i as int]@));
            assert(views(args@.take(i + 1)) =~= views(args@.take(i as int)).push(args@[i as int]@));
            assert(views(all@) =~= seq![npm_prefix()] + views(args@.take(i + 1)));
            i = i + 1;
        }
        assert(args@.take(args@.len() as int) =~= args@);
        Ok(NpmCall { program, dir: String::from_str(dir), args: all })
    }

    /// Links the bundle at `dep_dir` into the core app.
    pub fn link_dep(&self, dep_dir: &str) -> (r: Result<NpmCall, WikiError>)
        requires
            self.wf(),
        ensures
            match r {
                Ok(c) => self.is_npm_call(c, self.dir_of(self.wiki), seq!["link"@, dep_dir@]),
                Err(e) => self.npm_refusal(e),
            },
    {
        let args = vec![String::from_str("link"), String::from_str(dep_dir)];
        assert(views(args@) =~= seq!["link"@, dep_dir@]);
        self.run_npm(self.wiki_dir().as_str(), &args)
    }

    /// Step `i` of the dependency linker.
    pub fn linker_call(&self, i: usize) -> (r: Result<NpmCall, WikiError>)
        requires
            self.wf(),
            i < 5,
        ensures
            match r {
                Ok(c) => self.is_npm_call(c, self.linker_step(i as int).0, self.linker_step(i as int).1),
                Err(e) => self.npm_refusal(e),
            },
    {
        if i == 2 {
            self.link_dep(self.client_dir().as_str())
        } else if i == 3 {
            self.link_dep(self.server_dir().as_str())
        } else {
            let dir = if i == 0 {
                self.client_dir()
            } else if i == 1 {
                self.server_dir()
            } else {
                self.wiki_dir()
            };
            let args = vec![String::from_str("install")];
            assert(views(args@) =~= seq!["install"@]);
            self.run_npm(dir.as_str(), &args)
        }
    }

    /// Every call of the dependency linker, in order.
    pub fn install_wiki(&self) -> (r: Result<Vec<NpmCall>, WikiError>)
        requires
            self.wf(),
        ensures
            match r {
                Ok(calls) => calls@.len() == 5 && forall|i: int|
                    0 <= i < 5 ==> self.is_npm_call(
                        #[trigger] calls@[i],
                        self.linker_step(i).0,
                        self.linker_step(i).1,
                    ),
                Err(e) => self.npm_refusal(e),
            },
    {
        let mut calls: Vec<NpmCall> = Vec::new();
        let mut i: usize = 0;
        while i < 5
            invariant
                self.wf(),
                0 <= i <= 5,
                calls@.len() == i,
                forall|k: int|
                    0 <= k < i ==> self.is_npm_call(
                        #[trigger] calls@[k],
                        self.linker_step(k).0,
                        self.linker_step(k).1,
                    ),
            decreases 5 - i,
        {
            let c = self.linker_call(i)?;
            calls.push(c);
            i = i + 1;
        }
        Ok(calls)
    }

    /// Starts the wiki from the core app with the fixed security flags.
    pub fn run_wiki(&self) -> (r: Result<NpmCall, WikiError>)
        requires
            self.wf(),
        ensures
            match r {
                Ok(c) => self.is_npm_call(c, self.dir_of(self.wiki), Self::start_args()),
                Err(e) => self.npm_refusal(e),
            },
    {
        let args = vec![
            String::from_str("start"),
            String::from_str("--"),
            String::from_str("--security_type"),
            String::from_str("friends"),
            String::from_str("--cookie_secret"),
            String::from_str("a secret"),
            String::from_str("--farm"),
        ];
        assert(views(args@) =~= Self::start_args());
        self.run_npm(self.wiki_dir().as_str(), &args)
    }

    /// Where each bundle is downloaded from and to.
    pub fn download_wiki(&self) -> (r: Result<Vec<Download>, WikiError>)
        requires
            self.wf(),
        ensures
            match r {
                Ok(v) => v@.len() == self.bundles_view().len() && forall|i: int|
                    0 <= i < v@.len() ==> {
                        &&& url_parsed(self.bundles_view()[i].archive_url_view()) == Some(
                            (#[trigger] v@[i]).url@,
                        )
                        &&& v@[i].dest@ == self.zip_of(self.bundles_view()[i])
                    },
                Err(e) => e is Url && exists|i: int|
                    0 <= i < self.bundles_view().len() && url_parsed(
                        #[trigger] self.bundles_view()[i].archive_url_view(),
                    ) is None,
            },
    {
        let bundles = self.bundles();
        let mut v: Vec<Download> = Vec::new();
        let mut i: usize = 0;
        while i < bundles.len()
            invariant
                self.wf(),
                bundles@ == self.bundles_view(),
                0 <= i <= bundles@.len(),
                v@.len() == i,
                forall|k: int|
                    0 <= k < i ==> {
                        &&& url_parsed(bundles@[k].archive_url_view()) == Some((#[trigger] v@[k]).url@)
                        &&& v@[k].dest@ == self.zip_of(bundles@[k])
                    },
            decreases bundles@.len() - i,
        {
            assert(bundles@[i as int].wf()) by {
                if i >= 3 {
                    assert(bundles@[i as int] == self.plugins@[i - 3]);
                }
            }
            let url = bundles[i].url();
            match url {
                Ok(u) => {
                    v.push(Download { url: u, dest: self.bundle_zip(&bundles[i]) });
                },
                Err(e) => {
                    return Err(e);
                },
            }
            i = i + 1;
        }
        Ok(v)
    }

    /// Teardown of the whole install, guarded by the persisted document.
    pub fn delete(&self) -> (r: Removal)
        ensures
            r.guard@ == self.config_path_view(),
            r.target@ == self.root_view(),
    {
        Removal { guard: self.config_path(), target: self.canonical_dir() }
    }

    /// Teardown of the runtime alone; nothing when no runtime path is recorded.
    pub fn delete_node(&self) -> (r: Option<Removal>)
        ensures
            match r {
                Some(rm) => self.runtime_dir_view() == Some(rm.target@) && rm.guard@ == rm.target@,
                None => self.runtime_dir_view() is None,
            },
    {
        match &self.node.path {
            Some(p) => {
                let target = join(self.canonical_dir().as_str(), p.as_str());
                Some(Removal { guard: target.clone(), target })
            },
            None => None,
        }
    }

    pub fn delete_wiki_repo(&self) -> (r: Removal)
        requires
            self.wf(),
        ensures
            r.guard@ == self.dir_of(self.wiki),
            r.target@ == self.dir_of(self.wiki),
    {
        let d = self.wiki_dir();
        Removal { guard: d.clone(), target: d }
    }

    pub fn delete_server_repo(&self) -> (r: Removal)
        requires
            self.wf(),
        ensures
            r.guard@ == self.dir_of(self.server),
            r.target@ == self.dir_of(self.server),
    {
        let d = self.server_dir();
        Removal { guard: d.clone(), target: d }
    }

    pub fn delete_client_repo(&self) -> (r: Removal)
        requires
            self.wf(),
        ensures
            r.guard@ == self.dir_of(self.client),
            r.target@ == self.dir_of(self.client),
    {
        let d = self.client_dir();
        Removal { guard: d.clone(), target: d }
    }

    /// Teardown of the three bundle directories: core app, server, client.
    pub fn delete_wiki(&self) -> (r: Vec<Removal>)
        requires
            self.wf(),
        ensures
            r@.len() == 3,
            r@[0].target@ == self.dir_of(self.wiki),
            r@[1].target@ == self.dir_of(self.server),
            r@[2].target@ == self.dir_of(self.client),
            forall|i: int| 0 <= i < 3 ==> (#[trigger] r@[i]).guard@ == r@[i].target@,
    {
        vec![self.delete_wiki_repo(), self.delete_server_repo(), self.delete_client_repo()]
    }
}

} // verus!

use vstd::prelude::*;

use crate::archive::{
    archive_kind, has_root, kind_spec, root_of, op_views, plan_zip, planned_writes, root_name, ArchiveEntry,
    ArchiveKind, ExtractOp,
};
use crate::branch::Branch;
use crate::config::{NpmCall, WikiConfig};
use crate::error::WikiError;
use crate::fetch::{fetch, Download};
use crate::runtime::{
    file_name_of, first_file, last_segment, pick_runtime_archive, runtime_url, runtime_url_spec,
    Candidate,
};
use crate::strings::{join, join_path};
use crate::urls::url_parsed;

verus! {

/// What the driver is asked to do next.
#[derive(Debug, Clone)]
pub enum Action {
    /// Tell whether `path` exists: answer `Probed`.
    Probe { path: String },
    /// Create `path` and its parents: answer `Done`.
    CreateDir { path: String },
    /// Fetch the URL into the file: answer `Done`, or `Failed` on a transport error or
    /// a non-success status.
    Download { download: Download },
    /// List the paths in `dir` named `node*.*`: answer `Candidates`.
    FindRuntimeArchive { dir: String },
    /// List the entries of the archive under their sanitised names: answer `Listed`.
    ListArchive { path: String, kind: ArchiveKind },
    /// Write these entries of the zip archive: answer `Done`.
    Extract { archive: String, ops: Vec<ExtractOp> },
    /// Decompress and unpack the whole tar archive into `dest`: answer `Done`.
    Unpack { archive: String, dest: String },
    /// Run the package manager and wait for it: answer `Exited`, or `Failed` when it
    /// cannot be started.
    RunNpm { call: NpmCall },
    /// Write the session's configuration to `path`: answer `Done`.
    Save { path: String },
    /// The install is complete.
    Finished,
    /// The sequence stopped on this error.
    Abort { error: WikiError },
}

/// The driver's answer to the last action.
#[derive(Debug, Clone)]
pub enum Event {
    Done,
    Failed(String),
    Probed(bool),
    Candidates(Vec<Candidate>),
    Listed(Vec<ArchiveEntry>),
    Exited(i32),
}

/// Where the create sequence stands: each phase awaits the answer to one action.
#[derive(Debug, Clone)]
pub enum Phase {
    CheckInstalled,
    CreatingRoot,
    ProbingRuntime { download: Download },
    DownloadingRuntime { url: String },
    LocatingRuntime { url: String },
    ListingRuntime { url: String, archive: String, kind: ArchiveKind },
    ProbingRuntimeRoot { url: String, archive: String, root: String, entries: Vec<ArchiveEntry> },
    ExtractingRuntime { url: String, root: String },
    ProbingBundle { index: usize, download: Download },
    DownloadingBundle { index: usize },
    ListingBundle { index: usize },
    ProbingBundleRoot { index: usize, archive: String, entries: Vec<ArchiveEntry> },
    ExtractingBundle { index: usize },
    Linking { step: usize },
    Saving,
    Finished,
    Aborted,
}

/// One run of the create sequence over an install.
#[derive(Debug, Clone)]
pub struct Session {
    pub config: WikiConfig,
    pub update: bool,
    pub bundles: Vec<Branch>,
    /// Where each bundle is fetched from and to, listed once the runtime is recorded.
    pub downloads: Vec<Download>,
    pub phase: Phase,
}

impl WikiConfig {
    /// The check that tells whether the install exists: the persisted document's presence.
    pub fn install_exists(&self) -> (r: Action)
        ensures
            r matches Action::Probe { path } && path@ == self.config_path_view(),
    {
        Action::Probe { path: self.config_path() }
    }

    /// Starts the create sequence: first, whether the install already exists.
    pub fn create_wiki(self, update: bool) -> (r: (Session, Action))
        requires
            self.wf(),
        ensures
            r.0.wf(),
            r.0.config == self,
            r.0.update == update,
            r.0.phase is CheckInstalled,
            r.1 matches Action::Probe { path } && path@ == self.config_path_view(),
    {
        let a = self.install_exists();
        let bundles = self.bundles();
        (
            Session {
                config: self,
                update,
                bundles,
                downloads: Vec::new(),
                phase: Phase::CheckInstalled,
            },
            a,
        )
    }
}

impl Session {
    /// A runtime path has been recorded, and it is not empty.
    pub open spec fn runtime_recorded(&self) -> bool {
        self.config.node.path matches Some(p) && p@.len() > 0
    }

    /// Every bundle's archive URL parses.
    pub open spec fn bundle_urls_parse(&self) -> bool {
        forall|i: int|
            0 <= i < self.bundles@.len() ==> (#[trigger] url_parsed(
                self.bundles@[i].archive_url_view(),
            )) is Some
    }

    /// The download list holds, for each bundle, its parsed archive URL and its file.
    pub open spec fn downloads_ready(&self) -> bool {
        &&& self.downloads@.len() == self.bundles@.len()
        &&& forall|i: int|
            0 <= i < self.downloads@.len() ==> {
                &&& url_parsed(self.bundles@[i].archive_url_view()) == Some(
                    (#[trigger] self.downloads@[i]).url@,
                )
                &&& self.downloads@[i].dest@ == self.config.zip_of(self.bundles@[i])
            }
    }

    /// The runtime is recorded and the bundles' downloads are listed.
    pub open spec fn provisioning_bundles(&self) -> bool {
        self.runtime_recorded() && self.downloads_ready()
    }

    pub open spec fn wf(&self) -> bool {
        &&& self.config.wf()
        &&& self.bundles@ == self.config.bundles_view()
        &&& match self.phase {
            Phase::ProbingBundle { index, .. } => index < self.bundles@.len()
                && self.provisioning_bundles(),
            Phase::DownloadingBundle { index } => index < self.bundles@.len()
                && self.provisioning_bundles(),
            Phase::ListingBundle { index } => index < self.bundles@.len()
                && self.provisioning_bundles(),
            Phase::ProbingBundleRoot { index, .. } => index < self.bundles@.len()
                && self.provisioning_bundles(),
            Phase::ExtractingBundle { index } => index < self.bundles@.len()
                && self.provisioning_bundles(),
            Phase::Linking { step } => step < 5 && self.provisioning_bundles(),
            Phase::Saving => self.provisioning_bundles(),
            Phase::ListingRuntime { archive, kind, .. } => kind_spec(archive@) == Some(kind),
            Phase::ProbingRuntimeRoot { root, archive, .. } => root@.len() > 0 && kind_spec(
                archive@,
            ) == Some(ArchiveKind::Zip),
            Phase::ExtractingRuntime { root, .. } => root@.len() > 0,
            _ => true,
        }
    }

    /// The download that waits on the answer to a probe of its destination.
    pub open spec fn awaited_download(&self) -> Option<(Seq<char>, Seq<char>)> {
        match self.phase {
            Phase::ProbingRuntime { download } => Some((download.url@, download.dest@)),
            Phase::ProbingBundle { download, .. } => Some((download.url@, download.dest@)),
            _ => None,
        }
    }

    /// Only the runtime record of the configuration changes during a session.
    pub open spec fn same_install(&self, other: &Session) -> bool {
        &&& other.config == (WikiConfig { node: other.config.node, ..self.config })
        &&& other.update == self.update
        &&& other.bundles == self.bundles
    }

    /// What every step guarantees of the action it hands out.
    pub open spec fn step_post(&self, ev: Event, next: &Session, a: Action) -> bool {
        &&& next.wf()
        &&& self.same_install(next)
        &&& (next.config == self.config || self.phase is ProbingRuntimeRoot
            || self.phase is ExtractingRuntime)
        &&& (a matches Action::Download { download } ==> ev == Event::Probed(false)
            && self.awaited_download() == Some((download.url@, download.dest@)))
        &&& (next.awaited_download() matches Some((_url, dest)) ==> (a matches Action::Probe {
            path,
        } && path@ == dest))
        &&& (a is Save ==> (self.phase matches Phase::Linking { step } && step == 4 && ev
            == Event::Exited(0) && next.runtime_recorded()))
        &&& (self.phase is CheckInstalled && ev == Event::Probed(true) && !self.update
            ==> a is Finished)
        &&& ((self.phase is ProbingRuntimeRoot || self.phase is ProbingBundleRoot) && ev
            == Event::Probed(true) ==> !(a is Extract))
        &&& (self.phase is ProbingRuntimeRoot ==> (a matches Action::Extract { archive, .. }
            ==> kind_spec(archive@) == Some(ArchiveKind::Zip)))
        &&& (a matches Action::Unpack { archive, .. } ==> kind_spec(archive@) == Some(
            ArchiveKind::TarXz,
        ))
        &&& (self.phase matches Phase::ProbingBundleRoot { index, .. } ==> (index + 1
            == self.bundles@.len() && ev == Event::Probed(true) ==> (a is RunNpm || a is Abort)))
        &&& (self.phase is CheckInstalled && ev is Probed && !(ev == Event::Probed(true)
            && !self.update) ==> (a matches Action::CreateDir { path } && path@
            == self.config.root_view()))
    }

    /// `a` aborts with `error`, and the session has stopped.
    pub open spec fn aborted_with(&self, a: Action, error: WikiError) -> bool {
        self.phase is Aborted && a == (Action::Abort { error })
    }

    /// Having reached linker step `step`, the session runs it, or saves after the last.
    pub open spec fn started_linking(&self, step: int, a: Action) -> bool {
        if step < 5 {
            match a {
                Action::RunNpm { call } => self.phase == (Phase::Linking { step: step as usize })
                    && self.config.is_npm_call(
                    call,
                    self.config.linker_step(step).0,
                    self.config.linker_step(step).1,
                ),
                Action::Abort { error } => self.phase is Aborted && self.config.npm_refusal(error),
                _ => false,
            }
        } else {
            self.phase is Saving && (a matches Action::Save { path } && path@
                == self.config.config_path_view())
        }
    }

    /// Having reached bundle `index` of the extraction, the session lists its archive,
    /// or starts the linker after the last one.
    pub open spec fn started_extraction(&self, index: int, a: Action) -> bool {
        if index < self.bundles@.len() {
            &&& self.phase == (Phase::ListingBundle { index: index as usize })
            &&& a matches Action::ListArchive { path, kind } && path@ == self.config.zip_of(
                self.bundles@[index],
            ) && kind == ArchiveKind::Zip
        } else {
            self.started_linking(0, a)
        }
    }

    /// Having reached bundle `index` of the downloads, the session probes its archive,
    /// or starts the extraction after the last one.
    pub open spec fn started_download(&self, index: int, a: Action) -> bool {
        if index < self.bundles@.len() {
            let b = self.bundles@[index];
            &&& self.phase matches Phase::ProbingBundle { index: i, download } && i == index
                && url_parsed(b.archive_url_view()) == Some(download.url@) && download.dest@
                == self.config.zip_of(b)
            &&& a matches Action::Probe { path } && path@ == self.config.zip_of(b)
        } else {
            self.started_extraction(0, a)
        }
    }

    /// The runtime extracted to `root` from `url` is recorded, and the bundles come next;
    /// the session stops when some bundle's URL does not parse.
    pub open spec fn recorded_runtime(&self, url: String, root: String, a: Action) -> bool {
        &&& self.config.node.path == Some(root)
        &&& self.config.node.url == Some(url)
        &&& if self.bundle_urls_parse() {
            self.downloads_ready() && self.started_download(0, a)
        } else {
            self.phase is Aborted && (a matches Action::Abort { error } && error is Url)
        }
    }

    /// The error that a failure of the awaited action stops the session with.
    pub open spec fn failure_error(&self, m: String) -> WikiError {
        match self.phase {
            Phase::DownloadingRuntime { .. } => WikiError::Download(m),
            Phase::DownloadingBundle { .. } => WikiError::Download(m),
            Phase::Linking { .. } => WikiError::Spawn(m),
            _ => WikiError::Io(m),
        }
    }

    /// What the session does next, for each phase and answer.
    pub open spec fn transition(&self, ev: Event, next: &Session, a: Action) -> bool {
        let root = self.config.root_view();
        let unexpected = next.aborted_with(a, WikiError::UnexpectedEvent);
        match ev {
            Event::Failed(m) => next.aborted_with(a, self.failure_error(m)),
            _ => match self.phase {
                Phase::CheckInstalled => match ev {
                    Event::Probed(present) => if present && !self.update {
                        next.phase is Finished && a is Finished
                    } else {
                        next.phase is CreatingRoot && (a matches Action::CreateDir { path }
                            && path@ == root)
                    },
                    _ => unexpected,
                },
                Phase::CreatingRoot => match ev {
                    Event::Done => match runtime_url_spec(self.config.platform) {
                        Some(u) => {
                            let dest = join_path(root, last_segment(u));
                            &&& next.awaited_download() == Some((u, dest))
                            &&& next.phase is ProbingRuntime
                            &&& a matches Action::Probe { path } && path@ == dest
                        },
                        None => next.aborted_with(a, WikiError::UnsupportedPlatform),
                    },
                    _ => unexpected,
                },
                Phase::ProbingRuntime { download } => match ev {
                    Event::Probed(present) => if present {
                        next.phase == (Phase::LocatingRuntime { url: download.url }) && (
                        a matches Action::FindRuntimeArchive { dir } && dir@ == root)
                    } else {
                        next.phase == (Phase::DownloadingRuntime { url: download.url }) && (
                        a matches Action::Download { download: d } && d.url@ == download.url@
                            && d.dest@ == download.dest@)
                    },
                    _ => unexpected,
                },
                Phase::DownloadingRuntime { url } => match ev {
                    Event::Done => next.phase == (Phase::LocatingRuntime { url }) && (
                    a matches Action::FindRuntimeArchive { dir } && dir@ == root),
                    _ => unexpected,
                },
                Phase::LocatingRuntime { url } => match ev {
                    Event::Candidates(c) => match first_file(c@) {
                        Some(k) => match kind_spec(c@[k].path@) {
                            Some(kind) => next.phase matches Phase::ListingRuntime {
                                url: u2,
                                archive,
                                kind: k2,
                            } && u2 == url && archive@ == c@[k].path@ && k2 == kind && (
                            a matches Action::ListArchive { path, kind: k3 } && path@
                                == c@[k].path@ && k3 == kind),
                            None => next.phase is Aborted && (a matches Action::Abort { error }
                                && (error matches WikiError::UnsupportedArchive(p) && p@
                                == c@[k].path@)),
                        },
                        None => next.aborted_with(a, WikiError::MissingArtifact),
                    },
                    _ => unexpected,
                },
                Phase::ListingRuntime { url, archive, kind } => match ev {
                    Event::Listed(entries) => if !has_root(entries@) {
                        next.phase is Aborted && (a matches Action::Abort { error }
                            && (error matches WikiError::EmptyArchive(p) && p@ == archive@))
                    } else if kind == ArchiveKind::Zip {
                        let dest = join_path(root, root_of(entries@));
                        &&& next.phase matches Phase::ProbingRuntimeRoot { root: r, .. } && r@
                            == root_of(entries@)
                        &&& a matches Action::Probe { path } && path@ == dest
                    } else {
                        &&& next.phase matches Phase::ExtractingRuntime { root: r, .. } && r@
                            == root_of(entries@)
                        &&& a matches Action::Unpack { archive: a2, dest } && a2@ == archive@
                            && dest@ == root
                    },
                    _ => unexpected,
                },
                Phase::ProbingRuntimeRoot { url, archive, root: r, entries } => match ev {
                    Event::Probed(present) => if present {
                        next.recorded_runtime(url, r, a)
                    } else {
                        next.phase == (Phase::ExtractingRuntime { url, root: r }) && (
                        a matches Action::Extract { archive: a2, ops } && a2@ == archive@
                            && op_views(ops@) == planned_writes(root, entries@, false))
                    },
                    _ => unexpected,
                },
                Phase::ExtractingRuntime { url, root: r } => match ev {
                    Event::Done => next.recorded_runtime(url, r, a),
                    _ => unexpected,
                },
                Phase::ProbingBundle { index, download } => match ev {
                    Event::Probed(present) => if present {
                        next.started_download(index + 1, a)
                    } else {
                        next.phase == (Phase::DownloadingBundle { index }) && (
                        a matches Action::Download { download: d } && d.url@ == download.url@
                            && d.dest@ == download.dest@)
                    },
                    _ => unexpected,
                },
                Phase::DownloadingBundle { index } => match ev {
                    Event::Done => next.started_download(index + 1, a),
                    _ => unexpected,
                },
                Phase::ListingBundle { index } => match ev {
                    Event::Listed(entries) => {
                        let archive = self.config.zip_of(self.bundles@[index as int]);
                        if !has_root(entries@) {
                            next.phase is Aborted && (a matches Action::Abort { error }
                                && (error matches WikiError::EmptyArchive(p) && p@ == archive))
                        } else {
                            &&& next.phase matches Phase::ProbingBundleRoot {
                                index: i,
                                archive: a2,
                                entries: e2,
                            } && i == index && a2@ == archive && e2 == entries
                            &&& a matches Action::Probe { path } && path@ == join_path(
                                root,
                                root_of(entries@),
                            )
                        }
                    },
                    _ => unexpected,
                },
                Phase::ProbingBundleRoot { index, archive, entries } => match ev {
                    Event::Probed(present) => if present {
                        next.started_extraction(index + 1, a)
                    } else {
                        next.phase == (Phase::ExtractingBundle { index }) && (
                        a matches Action::Extract { archive: a2, ops } && a2@ == archive@
                            && op_views(ops@) == planned_writes(root, entries@, false))
                    },
                    _ => unexpected,
                },
                Phase::ExtractingBundle { index } => match ev {
                    Event::Done => next.started_extraction(index + 1, a),
                    _ => unexpected,
                },
                Phase::Linking { step } => match ev {
                    Event::Exited(code) => if code == 0 {
                        next.started_linking(step + 1, a)
                    } else {
                        next.aborted_with(a, WikiError::Subprocess(code))
                    },
                    _ => unexpected,
                },
                Phase::Saving => match ev {
                    Event::Done => next.phase is Finished && a is Finished,
                    _ => unexpected,
                },
                Phase::Finished => next.phase is Finished && a is Finished,
                Phase::Aborted => unexpected,
            },
        }
    }

    fn abort(&mut self, error: WikiError) -> (a: Action)
        requires
            old(self).wf(),
        ensures
            final(self).wf(),
            final(self).config == old(self).config,
            old(self).same_install(final(self)),
            final(self).phase is Aborted,
            a is Abort,
            final(self).aborted_with(a, error),
            !(a is Extract),
            !(a is Unpack),
    {
        self.phase = Phase::Aborted;
        Action::Abort { error }
    }

    /// Moves on to the linker step `step`, or to saving once all five have run.
    fn begin_linking(&mut self, step: usize) -> (a: Action)
        requires
            old(self).wf(),
            old(self).provisioning_bundles(),
            step <= 5,
        ensures
            final(self).wf(),
            final(self).config == old(self).config,
            old(self).same_install(final(self)),
            final(self).awaited_download() is None,
            a is Save ==> step == 5 && final(self).runtime_recorded(),
            final(self).started_linking(step as int, a),
            step < 5 ==> (a is RunNpm || a is Abort),
            !(a is Download),
            !(a is Extract),
            !(a is Unpack),
    {
        if step == 5 {
            self.phase = Phase::Saving;
            return Action::Save { path: self.config.config_path() };
        }
        match self.config.linker_call(step) {
            Ok(call) => {
                self.phase = Phase::Linking { step };
                Action::RunNpm { call }
            },
            Err(e) => self.abort(e),
        }
    }

    /// Moves on to extracting bundle `index`, or to the linker once all are extracted.
    fn begin_extraction(&mut self, index: usize) -> (a: Action)
        requires
            old(self).wf(),
            old(self).provisioning_bundles(),
            index <= old(self).bundles@.len(),
        ensures
            final(self).wf(),
            final(self).config == old(self).config,
            old(self).same_install(final(self)),
            final(self).awaited_download() is None,
            index == old(self).bundles@.len() ==> (a is RunNpm || a is Abort),
            final(self).started_extraction(index as int, a),
            !(a is Save),
            !(a is Download),
            !(a is Extract),
            !(a is Unpack),
    {
        if index == self.bundles.len() {
            return self.begin_linking(0);
        }
        let b = &self.bundles[index];
        assert(b.wf()) by {
            if index >= 3 {
                assert(self.bundles@[index as int] == self.config.plugins@[index - 3]);
            }
        }
        let archive = self.config.bundle_zip(b);
        self.phase = Phase::ListingBundle { index };
        Action::ListArchive { path: archive, kind: ArchiveKind::Zip }
    }

    /// Moves on to fetching bundle `index`, or to extraction once all are fetched.
    fn begin_download(&mut self, index: usize) -> (a: Action)
        requires
            old(self).wf(),
            old(self).provisioning_bundles(),
            index <= old(self).bundles@.len(),
        ensures
            final(self).wf(),
            final(self).config == old(self).config,
            old(self).same_install(final(self)),
            final(self).awaited_download() matches Some((_url, dest)) ==> (a matches Action::Probe {
                path,
            } && path@ == dest),
            final(self).started_download(index as int, a),
            !(a is Save),
            !(a is Download),
            !(a is Extract),
            !(a is Unpack),
    {
        if index == self.bundles.len() {
            return self.begin_extraction(0);
        }
        let d = &self.downloads[index];
        let url = d.url.clone();
        let dest = d.dest.clone();
        let path = dest.clone();
        self.phase = Phase::ProbingBundle { index, download: Download { url, dest } };
        Action::Probe { path }
    }

    /// Moves on past fetched bundle `done`.
    fn download_after(&mut self, done: usize) -> (a: Action)
        requires
            old(self).wf(),
            old(self).provisioning_bundles(),
            done < old(self).bundles@.len(),
        ensures
            final(self).wf(),
            final(self).config == old(self).config,
            old(self).same_install(final(self)),
            final(self).awaited_download() matches Some((_url, dest)) ==> (a matches Action::Probe {
                path,
            } && path@ == dest),
            final(self).started_download(done + 1, a),
            !(a is Save),
            !(a is Download),
            !(a is Extract),
            !(a is Unpack),
    {
        let count = self.bundles.len();
        if done + 1 < count {
            self.begin_download(done + 1)
        } else {
            self.begin_download(count)
        }
    }

    /// Moves on past extracted bundle `done`.
    fn extraction_after(&mut self, done: usize) -> (a: Action)
        requires
            old(self).wf(),
            old(self).provisioning_bundles(),
            done < old(self).bundles@.len(),
        ensures
            final(self).wf(),
            final(self).config == old(self).config,
            old(self).same_install(final(self)),
            final(self).awaited_download() is None,
            done + 1 == old(self).bundles@.len() ==> (a is RunNpm || a is Abort),
            final(self).started_extraction(done + 1, a),
            !(a is Save),
            !(a is Download),
            !(a is Extract),
            !(a is Unpack),
    {
        let count = self.bundles.len();
        if done + 1 < count {
            self.begin_extraction(done + 1)
        } else {
            self.begin_extraction(count)
        }
    }

    /// Records the extracted runtime, then moves on to the bundles.
    fn runtime_extracted(&mut self, url: String, root: String) -> (a: Action)
        requires
            old(self).wf(),
            root@.len() > 0,
        ensures
            final(self).wf(),
            old(self).same_install(final(self)),
            final(self).runtime_recorded(),
            final(self).recorded_runtime(url, root, a),
            final(self).awaited_download() matches Some((_url, dest)) ==> (a matches Action::Probe {
                path,
            } && path@ == dest),
            !(a is Save),
            !(a is Download),
            !(a is Extract),
            !(a is Unpack),
    {
        self.config.node.path = Some(root);
        self.config.node.url = Some(url);
        match self.config.download_wiki() {
            Ok(downloads) => {
                self.downloads = downloads;
                assert(self.bundle_urls_parse()) by {
                    assert forall|i: int| 0 <= i < self.bundles@.len() implies (#[trigger] url_parsed(
                        self.bundles@[i].archive_url_view(),
                    )) is Some by {
                        assert(url_parsed(self.bundles@[i].archive_url_view()) == Some(
                            self.downloads@[i].url@,
                        ));
                    }
                }
                self.begin_download(0)
            },
            Err(e) => {
                assert(!self.bundle_urls_parse()) by {
                    let i = choose|i: int|
                        0 <= i < self.config.bundles_view().len() && url_parsed(
                            #[trigger] self.config.bundles_view()[i].archive_url_view(),
                        ) is None;
                    assert(self.bundles@[i] == self.config.bundles_view()[i]);
                }
                self.abort(e)
            },
        }
    }

    /// Hands the next action out in reply to the answer to the last one.
    pub fn step(&mut self, ev: Event) -> (a: Action)
        requires
            old(self).wf(),
        ensures
            old(self).step_post(ev, final(self), a),
            old(self).transition(ev, final(self), a),
    {
        if let Event::Failed(msg) = ev {
            let error = match &self.phase {
                Phase::DownloadingRuntime { .. } => WikiError::Download(msg),
                Phase::DownloadingBundle { .. } => WikiError::Download(msg),
                Phase::Linking { .. } => WikiError::Spawn(msg),
                _ => WikiError::Io(msg),
            };
            return self.abort(error);
        }
        match &self.phase {
            Phase::CheckInstalled => {
                match ev {
                    Event::Probed(present) => {
                        if present && !self.update {
                            self.phase = Phase::Finished;
                            Action::Finished
                        } else {
                            self.phase = Phase::CreatingRoot;
                            Action::CreateDir { path: self.config.canonical_dir() }
                        }
                    },
                    _ => self.abort(WikiError::UnexpectedEvent),
                }
            },
            Phase::CreatingRoot => {
                match ev {
                    Event::Done => {
                        match runtime_url(self.config.platform) {
                            Some(u) => {
                                let name = file_name_of(u);
                                let dest = join(self.config.canonical_dir().as_str(), name.as_str());
                                let path = dest.clone();
                                self.phase = Phase::ProbingRuntime {
                                    download: Download { url: String::from_str(u), dest },
                                };
                                Action::Probe { path }
                            },
                            None => self.abort(WikiError::UnsupportedPlatform),
                        }
                    },
                    _ => self.abort(WikiError::UnexpectedEvent),
                }
            },
            Phase::ProbingRuntime { download } => {
                match ev {
                    Event::Probed(present) => {
                        let url = download.url.clone();
                        match fetch(download.url.as_str(), download.dest.as_str(), present) {
                            Some(d) => {
                                self.phase = Phase::DownloadingRuntime { url };
                                Action::Download { download: d }
                            },
                            None => {
                                self.phase = Phase::LocatingRuntime { url };
                                Action::FindRuntimeArchive { dir: self.config.canonical_dir() }
                            },
                        }
                    },
                    _ => self.abort(WikiError::UnexpectedEvent),
                }
            },
            Phase::DownloadingRuntime { url } => {
                match ev {
                    Event::Done => {
                        self.phase = Phase::LocatingRuntime { url: url.clone() };
                        Action::FindRuntimeArchive { dir: self.config.canonical_dir() }
                    },
                    _ => self.abort(WikiError::UnexpectedEvent),
                }
            },
            Phase::LocatingRuntime { url } => {
                match ev {
                    Event::Candidates(candidates) => {
                        let url = url.clone();
                        match pick_runtime_archive(&candidates) {
                            Some(archive) => {
                                match archive_kind(archive.as_str()) {
                                    Ok(kind) => {
                                        let path = archive.clone();
                                        self.phase = Phase::ListingRuntime { url, archive, kind };
                                        Action::ListArchive { path, kind }
                                    },
                                    Err(e) => self.abort(e),
                                }
                            },
                            None => self.abort(WikiError::MissingArtifact),
                        }
                    },
                    _ => self.abort(WikiError::UnexpectedEvent),
                }
            },
            Phase::ListingRuntime { url, archive, kind } => {
                match ev {
                    Event::Listed(entries) => {
                        let url = url.clone();
                        let archive = archive.clone();
                        let kind = *kind;
                        match root_name(archive.as_str(), &entries) {
                            Ok(root) => {
                                let dest = self.config.canonical_dir();
                                match kind {
                                    ArchiveKind::Zip => {
                                        let path = join(dest.as_str(), root.as_str());
                                        self.phase = Phase::ProbingRuntimeRoot {
                                            url,
                                            archive,
                                            root,
                                            entries,
                                        };
                                        Action::Probe { path }
                                    },
                                    ArchiveKind::TarXz => {
                                        self.phase = Phase::ExtractingRuntime { url, root };
                                        Action::Unpack { archive, dest }
                                    },
                                }
                            },
                            Err(e) => self.abort(e),
                        }
                    },
                    _ => self.abort(WikiError::UnexpectedEvent),
                }
            },
            Phase::ProbingRuntimeRoot { url, archive, root, entries } => {
                match ev {
                    Event::Probed(present) => {
                        let url = url.clone();
                        let root = root.clone();
                        let archive = archive.clone();
                        if present {
                            self.runtime_extracted(url, root)
                        } else {
                            let ops = plan_zip(self.config.canonical_dir().as_str(), entries, false);
                            self.phase = Phase::ExtractingRuntime { url, root };
                            Action::Extract { archive, ops }
                        }
                    },
                    _ => self.abort(WikiError::UnexpectedEvent),
                }
            },
            Phase::ExtractingRuntime { url, root } => {
                match ev {
                    Event::Done => {
                        let url = url.clone();
                        let root = root.clone();
                        self.runtime_extracted(url, root)
                    },
                    _ => self.abort(WikiError::UnexpectedEvent),
                }
            },
            Phase::ProbingBundle { index, download } => {
                match ev {
                    Event::Probed(present) => {
                        let index = *index;
                        match fetch(download.url.as_str(), download.dest.as_str(), present) {
                            Some(d) => {
                                self.phase = Phase::DownloadingBundle { index };
                                Action::Download { download: d }
                            },
                            None => self.download_after(index),
                        }
                    },
                    _ => self.abort(WikiError::UnexpectedEvent),
                }
            },
            Phase::DownloadingBundle { index } => {
                match ev {
                    Event::Done => {
                        let index = *index;
                        self.download_after(index)
                    },
                    _ => self.abort(WikiError::UnexpectedEvent),
                }
            },
            Phase::ListingBundle { index } => {
                match ev {
                    Event::Listed(entries) => {
                        let index = *index;
                        let b = &self.bundles[index];
                        assert(b.wf()) by {
                            if index >= 3 {
                                assert(self.bundles@[index as int] == self.config.plugins@[index
                                    - 3]);
                            }
                        }
                        let archive = self.config.bundle_zip(b);
                        match root_name(archive.as_str(), &entries) {
                            Ok(root) => {
                                let path = join(self.config.canonical_dir().as_str(), root.as_str());
                                self.phase = Phase::ProbingBundleRoot { index, archive, entries };
                                Action::Probe { path }
                            },
                            Err(e) => self.abort(e),
                        }
                    },
                    _ => self.abort(WikiError::UnexpectedEvent),
                }
            },
            Phase::ProbingBundleRoot { index, archive, entries } => {
                match ev {
                    Event::Probed(present) => {
                        let index = *index;
                        if present {
                            self.extraction_after(index)
                        } else {
                            let archive = archive.clone();
                            let ops = plan_zip(self.config.canonical_dir().as_str(), entries, false);
                            self.phase = Phase::ExtractingBundle { index };
                            Action::Extract { archive, ops }
                        }
                    },
                    _ => self.abort(WikiError::UnexpectedEvent),
                }
            },
            Phase::ExtractingBundle { index } => {
                match ev {
                    Event::Done => {
                        let index = *index;
                        self.extraction_after(index)
                    },
                    _ => self.abort(WikiError::UnexpectedEvent),
                }
            },
            Phase::Linking { step } => {
                match ev {
                    Event::Exited(code) => {
                        let step = *step;
                        if code == 0 {
                            self.begin_linking(step + 1)
                        } else {
                            self.abort(WikiError::Subprocess(code))
                        }
                    },
                    _ => self.abort(WikiError::UnexpectedEvent),
                }
            },
            Phase::Saving => {
                match ev {
                    Event::Done => {
                        self.phase = Phase::Finished;
                        Action::Finished
                    },
                    _ => self.abort(WikiError::UnexpectedEvent),
                }
            },
            Phase::Finished => Action::Finished,
            Phase::Aborted => Action::Abort { error: WikiError::UnexpectedEvent },
        }
    }
}

impl Session {
    /// The phases between recording the runtime and saving.
    pub open spec fn past_runtime(&self) -> bool {
        ||| self.phase is ProbingBundle
        ||| self.phase is DownloadingBundle
        ||| self.phase is ListingBundle
        ||| self.phase is ProbingBundleRoot
        ||| self.phase is ExtractingBundle
        ||| self.phase is Linking
        ||| self.phase is Saving
    }

    /// The runtime path of this session is the non-empty root that `earlier` was
    /// recording.
    pub open spec fn recorded_by(&self, earlier: Session) -> bool {
        match earlier.runtime_root() {
            Some(r) => self.config.node.path == Some(r) && r@.len() > 0,
            None => false,
        }
    }

    /// The root that the runtime phase in progress records.
    pub open spec fn runtime_root(&self) -> Option<String> {
        match self.phase {
            Phase::ProbingRuntimeRoot { root, .. } => Some(root),
            Phase::ExtractingRuntime { root, .. } => Some(root),
            _ => None,
        }
    }
}

/// `states`, `events` and `actions` are a run of the create sequence from its start:
/// each action is what `step` handed out for the event given in the state before it.
pub open spec fn is_run(states: Seq<Session>, events: Seq<Event>, actions: Seq<Action>) -> bool {
    &&& states.len() == events.len() + 1
    &&& actions.len() == events.len()
    &&& states[0].wf()
    &&& states[0].phase is CheckInstalled
    &&& forall|i: int|
        0 <= i < events.len() ==> #[trigger] states[i].step_post(
            events[i],
            &states[i + 1],
            actions[i],
        ) && states[i].transition(events[i], &states[i + 1], actions[i])
}

proof fn lemma_enters_past_runtime(s: Session, ev: Event, next: Session, a: Action)
    requires
        s.step_post(ev, &next, a),
        s.transition(ev, &next, a),
        next.past_runtime(),
        !s.past_runtime(),
    ensures
        s.runtime_root() matches Some(r) && next.config.node.path == Some(r),
{
}

proof fn lemma_recorded_root_kept(
    states: Seq<Session>,
    events: Seq<Event>,
    actions: Seq<Action>,
    i: int,
)
    requires
        is_run(states, events, actions),
        0 <= i < states.len(),
        states[i].past_runtime(),
    ensures
        exists|j: int|
            0 <= j < i && #[trigger] states[i].recorded_by(states[j]),
    decreases i,
{
    let p = i - 1;
    assert(states[p].step_post(events[p], &states[p + 1], actions[p]));
    if p > 0 {
        let q = p - 1;
        assert(states[q].step_post(events[q], &states[q + 1], actions[q]));
    }
    assert(states[p].wf());
    if states[p].past_runtime() {
        lemma_recorded_root_kept(states, events, actions, p);
        let j = choose|j: int|
            0 <= j < p && #[trigger] states[p].recorded_by(states[j]);
        assert(states[i].config == states[p].config);
        assert(states[i].recorded_by(states[j]));
    } else {
        lemma_enters_past_runtime(states[p], events[p], states[p + 1], actions[p]);
        assert(states[i].recorded_by(states[p]));
    }
}

/// In a run from the start, the document that `Save` writes records as the runtime
/// path the root of the runtime archive that the run extracted (or found extracted),
/// and that path is not empty.
pub proof fn lemma_saved_runtime_is_extracted_root(
    states: Seq<Session>,
    events: Seq<Event>,
    actions: Seq<Action>,
    k: int,
)
    requires
        is_run(states, events, actions),
        0 <= k < actions.len(),
        actions[k] is Save,
    ensures
        exists|j: int|
            0 <= j < k && #[trigger] states[k + 1].recorded_by(states[j]),
{
    assert(states[k].step_post(events[k], &states[k + 1], actions[k]));
    assert(states[k].transition(events[k], &states[k + 1], actions[k]));
    assert(states[k].phase is Linking);
    assert(states[k + 1].phase is Saving);
    lemma_recorded_root_kept(states, events, actions, k + 1);
    let j = choose|j: int|
        0 <= j < k + 1 && #[trigger] states[k + 1].recorded_by(states[j]);
    assert(!states[k].past_runtime() || states[k].runtime_root() is None);
    assert(j < k) by {
        if j == k {
            assert(states[k].runtime_root() is None);
        }
    }
}

impl Session {
    /// `a` is the linker's step `step` for this session's configuration.
    pub open spec fn runs_linker_step(&self, step: int, a: Action) -> bool {
        a matches Action::RunNpm { call } && self.config.is_npm_call(
            call,
            self.config.linker_step(step).0,
            self.config.linker_step(step).1,
        )
    }
}

proof fn lemma_enters_linking(s: Session, ev: Event, next: Session, a: Action, t: int)
    requires
        s.step_post(ev, &next, a),
        s.transition(ev, &next, a),
        next.phase == (Phase::Linking { step: t as usize }),
        0 <= t < 5,
    ensures
        next.runs_linker_step(t, a),
        t > 0 ==> s.phase == (Phase::Linking { step: (t - 1) as usize }),
{
}

proof fn lemma_linker_history(
    states: Seq<Session>,
    events: Seq<Event>,
    actions: Seq<Action>,
    i: int,
    t: int,
)
    requires
        is_run(states, events, actions),
        0 <= i < states.len(),
        0 <= t < 5,
        states[i].phase == (Phase::Linking { step: t as usize }),
    ensures
        i >= t + 1,
        forall|u: int|
            0 <= u <= t ==> #[trigger] states[i - t + u].runs_linker_step(u, actions[i - t + u - 1]),
    decreases t,
{
    assert(states[0].phase is CheckInstalled);
    let p = i - 1;
    assert(states[p].step_post(events[p], &states[p + 1], actions[p]));
    assert(states[p].transition(events[p], &states[p + 1], actions[p]));
    lemma_enters_linking(states[p], events[p], states[i], actions[p], t);
    if t > 0 {
        lemma_linker_history(states, events, actions, p, t - 1);
        assert forall|u: int| 0 <= u <= t implies #[trigger] states[i - t + u].runs_linker_step(
            u,
            actions[i - t + u - 1],
        ) by {
            if u < t {
                assert(states[p - (t - 1) + u].runs_linker_step(u, actions[p - (t - 1) + u - 1]));
            }
        }
    }
}

/// In a run from the start, every save is preceded by the dependency linker's five
/// calls, in order, in the five steps just before it: the linker runs on every pass,
/// whatever was already downloaded or extracted.
pub proof fn lemma_save_follows_full_linker(
    states: Seq<Session>,
    events: Seq<Event>,
    actions: Seq<Action>,
    k: int,
)
    requires
        is_run(states, events, actions),
        0 <= k < actions.len(),
        actions[k] is Save,
    ensures
        k >= 5,
        forall|u: int|
            0 <= u < 5 ==> #[trigger] states[k - 4 + u].runs_linker_step(u, actions[k - 5 + u]),
{
    assert(states[k].step_post(events[k], &states[k + 1], actions[k]));
    assert(states[k].phase == (Phase::Linking { step: 4 }));
    lemma_linker_history(states, events, actions, k, 4);
    assert forall|u: int| 0 <= u < 5 implies #[trigger] states[k - 4 + u].runs_linker_step(
        u,
        actions[k - 5 + u],
    ) by {
        assert(states[k - 4 + u].runs_linker_step(u, actions[k - 4 + u - 1]));
    }
}

/// A driver that answers each probe truthfully, over a filesystem where every download
/// destination is already present, is never asked to download; once the last bundle
/// is found extracted, the dependency linker runs again all the same.
pub proof fn lemma_present_artifacts_are_not_fetched(
    s: Session,
    ev: Event,
    next: Session,
    a: Action,
    present: Set<Seq<char>>,
)
    requires
        s.step_post(ev, &next, a),
        s.awaited_download() matches Some((_url, dest)) ==> present.contains(dest) && (ev is Probed
            ==> ev == Event::Probed(present.contains(dest))),
    ensures
        !(a is Download),
        s.phase matches Phase::ProbingBundleRoot { index, .. } ==> (index + 1 == s.bundles@.len()
            && ev == Event::Probed(true) ==> (a is RunNpm || a is Abort)),
{
}

/// Over a whole run in which a truthful driver answers every probe against a filesystem
/// that already holds every download destination (a second create over a complete
/// install), no step asks for a download.
pub proof fn lemma_rerun_downloads_nothing(
    states: Seq<Session>,
    events: Seq<Event>,
    actions: Seq<Action>,
    present: Set<Seq<char>>,
)
    requires
        states.len() == events.len() + 1,
        actions.len() == events.len(),
        forall|i: int|
            0 <= i < events.len() ==> #[trigger] states[i].step_post(
                events[i],
                &states[i + 1],
                actions[i],
            ),
        forall|i: int|
            0 <= i < events.len() ==> (#[trigger] states[i].awaited_download() matches Some(
                (_url, dest),
            ) ==> present.contains(dest) && (events[i] is Probed ==> events[i] == Event::Probed(
                present.contains(dest),
            ))),
    ensures
        forall|i: int| 0 <= i < actions.len() ==> !(#[trigger] actions[i] is Download),
{
    assert forall|i: int| 0 <= i < actions.len() implies !(#[trigger] actions[i] is Download) by {
        assert(states[i].step_post(events[i], &states[i + 1], actions[i]));
        assert(states[i].awaited_download() matches Some((_url, dest)) ==> present.contains(dest)
            && (events[i] is Probed ==> events[i] == Event::Probed(present.contains(dest))));
        lemma_present_artifacts_are_not_fetched(
            states[i],
            events[i],
            states[i + 1],
            actions[i],
            present,
        );
    }
}

} // verus!

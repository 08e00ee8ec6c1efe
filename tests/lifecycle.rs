use std::collections::BTreeSet;

use wiki_rust::archive::ArchiveEntry;
use wiki_rust::config::{is_default, NodeConfig, NpmCall, WikiConfig};
use wiki_rust::error::WikiError;
use wiki_rust::lifecycle::{Action, Event, Session};
use wiki_rust::runtime::{Candidate, Platform};

/// A filesystem held in memory, answering the session's actions.
struct World {
    files: BTreeSet<String>,
    dirs: BTreeSet<String>,
    downloads: usize,
    writes: usize,
    npm: Vec<NpmCall>,
    saved: Option<WikiConfig>,
}

impl World {
    fn new() -> World {
        World {
            files: BTreeSet::new(),
            dirs: BTreeSet::new(),
            downloads: 0,
            writes: 0,
            npm: Vec::new(),
            saved: None,
        }
    }

    fn has(&self, p: &str) -> bool {
        self.files.contains(p) || self.dirs.contains(p)
    }

    fn listing(path: &str) -> Vec<ArchiveEntry> {
        let file = path.rsplit('/').next().unwrap();
        let root = file
            .trim_end_matches(".zip")
            .trim_end_matches(".tar.xz")
            .to_string();
        vec![
            ArchiveEntry { name: root.clone(), is_dir: true },
            ArchiveEntry { name: format!("{}/package.json", root), is_dir: false },
        ]
    }

    /// Runs a session to its end; returns the last action.
    fn run(&mut self, config: WikiConfig, update: bool) -> (Session, Action) {
        let (mut session, mut action) = config.create_wiki(update);
        loop {
            let ev = match &action {
                Action::Probe { path } => Event::Probed(self.has(path)),
                Action::CreateDir { path } => {
                    self.dirs.insert(path.clone());
                    Event::Done
                }
                Action::Download { download } => {
                    self.downloads += 1;
                    self.files.insert(download.dest.clone());
                    Event::Done
                }
                Action::FindRuntimeArchive { dir } => {
                    let prefix = format!("{}/node", dir);
                    let mut found = Vec::new();
                    for p in self.dirs.iter().chain(self.files.iter()) {
                        if !p.starts_with(&prefix) {
                            continue;
                        }
                        let name = &p[dir.len() + 1..];
                        if !name.contains('/') && name.contains('.') {
                            found.push(Candidate { path: p.clone(), is_dir: self.dirs.contains(p) });
                        }
                    }
                    Event::Candidates(found)
                }
                Action::ListArchive { path, .. } => Event::Listed(World::listing(path)),
                Action::Extract { ops, .. } => {
                    for op in ops {
                        self.writes += 1;
                        if op.is_dir {
                            self.dirs.insert(op.out_path.clone());
                        } else {
                            self.files.insert(op.out_path.clone());
                        }
                    }
                    Event::Done
                }
                Action::Unpack { archive, dest } => {
                    for e in World::listing(archive) {
                        self.writes += 1;
                        let p = format!("{}/{}", dest, e.name);
                        if e.is_dir {
                            self.dirs.insert(p);
                        } else {
                            self.files.insert(p);
                        }
                    }
                    Event::Done
                }
                Action::RunNpm { call } => {
                    self.npm.push(call.clone());
                    Event::Exited(0)
                }
                Action::Save { path } => {
                    self.files.insert(path.clone());
                    self.saved = Some(session.config.clone());
                    Event::Done
                }
                Action::Finished | Action::Abort { .. } => return (session, action),
            };
            action = session.step(ev);
        }
    }
}

fn config(platform: Platform) -> WikiConfig {
    WikiConfig::new("~/wiki", "/home/u", platform)
}

#[test]
fn fresh_install_records_the_runtime_and_saves() {
    let mut w = World::new();
    let (session, last) = w.run(config(Platform::Windows), false);
    assert!(matches!(last, Action::Finished));
    // runtime and three bundles
    assert_eq!(w.downloads, 4);
    assert!(w.files.contains("/home/u/wiki/node-v12.13.1-win-x64.zip"));
    assert!(w.files.contains("/home/u/wiki/wiki-master.zip"));
    assert!(w.dirs.contains("/home/u/wiki/wiki-client-master"));
    assert!(w.files.contains("/home/u/wiki/config.yaml"));
    let saved = w.saved.unwrap();
    let path = saved.node.path.clone().unwrap();
    assert_eq!(path, "node-v12.13.1-win-x64");
    assert!(!path.is_empty());
    assert_eq!(
        saved.node.url.as_deref(),
        Some("https://nodejs.org/dist/v12.13.1/node-v12.13.1-win-x64.zip")
    );
    assert!(!is_default(&saved.node));
    assert_eq!(session.config.node.path.as_deref(), Some("node-v12.13.1-win-x64"));
}

#[test]
fn linker_runs_in_fixed_order() {
    let mut w = World::new();
    w.run(config(Platform::Linux), false);
    let program = "/home/u/wiki/node-v12.13.0-linux-x64/bin/npm";
    let expect: Vec<(&str, Vec<&str>)> = vec![
        ("/home/u/wiki/wiki-client-master", vec!["install"]),
        ("/home/u/wiki/wiki-server-master", vec!["install"]),
        ("/home/u/wiki/wiki-master", vec!["link", "/home/u/wiki/wiki-client-master"]),
        ("/home/u/wiki/wiki-master", vec!["link", "/home/u/wiki/wiki-server-master"]),
        ("/home/u/wiki/wiki-master", vec!["install"]),
    ];
    assert_eq!(w.npm.len(), 5);
    for (call, (dir, args)) in w.npm.iter().zip(expect) {
        assert_eq!(call.program, program);
        assert_eq!(call.dir, dir);
        assert_eq!(call.args[0], "--scripts-prepend-node-path=true");
        assert_eq!(&call.args[1..], &args.iter().map(|a| a.to_string()).collect::<Vec<_>>()[..]);
    }
}

#[test]
fn existing_install_without_update_is_left_alone() {
    let mut w = World::new();
    w.files.insert("/home/u/wiki/config.yaml".to_string());
    let (_session, last) = w.run(config(Platform::Windows), false);
    assert!(matches!(last, Action::Finished));
    assert_eq!(w.downloads, 0);
    assert_eq!(w.writes, 0);
    assert!(w.npm.is_empty());
    assert!(w.saved.is_none());
}

#[test]
fn existing_install_with_update_runs_again() {
    let mut w = World::new();
    w.files.insert("/home/u/wiki/config.yaml".to_string());
    let (_session, last) = w.run(config(Platform::Windows), true);
    assert!(matches!(last, Action::Finished));
    assert_eq!(w.downloads, 4);
    assert!(w.saved.is_some());
}

#[test]
fn second_create_downloads_nothing_but_links_again() {
    let mut w = World::new();
    w.run(config(Platform::Windows), false);
    assert_eq!(w.downloads, 4);
    let writes = w.writes;
    w.files.remove("/home/u/wiki/config.yaml");
    let (_session, last) = w.run(config(Platform::Windows), false);
    assert!(matches!(last, Action::Finished));
    assert_eq!(w.downloads, 4);
    assert_eq!(w.writes, writes);
    assert_eq!(w.npm.len(), 10);
}

#[test]
fn tar_runtime_is_unpacked_every_time() {
    let mut w = World::new();
    w.run(config(Platform::Linux), true);
    let writes = w.writes;
    w.run(config(Platform::Linux), true);
    // the tar path has no existence check: its two entries are written again
    assert_eq!(w.writes, writes + 2);
    assert_eq!(w.downloads, 4);
}

#[test]
fn runtime_only_teardown_keeps_the_bundles() {
    let mut w = World::new();
    let (session, _) = w.run(config(Platform::Windows), false);
    let cfg = session.config;
    let removal = cfg.delete_node().unwrap();
    assert_eq!(removal.target, "/home/u/wiki/node-v12.13.1-win-x64");
    assert_eq!(removal.guard, removal.target);
    let bundles = cfg.delete_wiki();
    for b in &bundles {
        assert_ne!(b.target, removal.target);
        assert!(w.dirs.contains(&b.target));
    }
    assert_eq!(bundles[0].target, cfg.wiki_dir());
    assert_eq!(bundles[1].target, cfg.server_dir());
    assert_eq!(bundles[2].target, cfg.client_dir());
    assert_eq!(cfg.wiki.path_spec, "fedwiki/wiki");
    assert_eq!(cfg.server.path_spec, "fedwiki/wiki-server");
    assert_eq!(cfg.client.path_spec, "fedwiki/wiki-client");
}

#[test]
fn no_runtime_archive_is_a_missing_artifact() {
    let mut w = World::new();
    let (mut session, mut action) = config(Platform::Windows).create_wiki(false);
    let mut seen_find = false;
    loop {
        let ev = match &action {
            Action::Probe { path } => Event::Probed(w.has(path)),
            Action::CreateDir { .. } => Event::Done,
            Action::Download { .. } => {
                w.downloads += 1;
                Event::Done
            }
            Action::FindRuntimeArchive { .. } => {
                seen_find = true;
                Event::Candidates(vec![])
            }
            _ => break,
        };
        action = session.step(ev);
    }
    assert!(seen_find);
    assert!(matches!(action, Action::Abort { error: WikiError::MissingArtifact }));
}

#[test]
fn failed_download_aborts() {
    let (mut session, _) = config(Platform::Windows).create_wiki(false);
    session.step(Event::Probed(false));
    session.step(Event::Done);
    let a = session.step(Event::Probed(false));
    assert!(matches!(a, Action::Download { .. }));
    let a = session.step(Event::Failed("404".to_string()));
    assert!(matches!(a, Action::Abort { error: WikiError::Download(m) } if m == "404"));
}

#[test]
fn unsupported_runtime_archive_extracts_nothing() {
    let (mut session, _) = config(Platform::Windows).create_wiki(false);
    session.step(Event::Probed(false));
    session.step(Event::Done);
    session.step(Event::Probed(true));
    let a = session.step(Event::Candidates(vec![Candidate {
        path: "/home/u/wiki/node.rar".to_string(),
        is_dir: false,
    }]));
    assert!(matches!(
        a,
        Action::Abort { error: WikiError::UnsupportedArchive(p) } if p == "/home/u/wiki/node.rar"
    ));
}

#[test]
fn failing_linker_step_aborts_without_saving() {
    let (mut session, _) = config(Platform::Windows).create_wiki(false);
    let mut action = session.step(Event::Probed(false));
    loop {
        let ev = match &action {
            Action::Probe { .. } => Event::Probed(false),
            Action::CreateDir { .. } | Action::Download { .. } => Event::Done,
            Action::Extract { .. } | Action::Unpack { .. } => Event::Done,
            Action::FindRuntimeArchive { dir } => Event::Candidates(vec![Candidate {
                path: format!("{}/node-v12.13.1-win-x64.zip", dir),
                is_dir: false,
            }]),
            Action::ListArchive { path, .. } => Event::Listed(World::listing(path)),
            Action::RunNpm { .. } => Event::Exited(2),
            _ => break,
        };
        action = session.step(ev);
    }
    assert!(matches!(action, Action::Abort { error: WikiError::Subprocess(2) }));
}

#[test]
fn unsupported_platform_has_no_runtime() {
    let (mut session, _) = config(Platform::Other).create_wiki(false);
    session.step(Event::Probed(false));
    let a = session.step(Event::Done);
    assert!(matches!(a, Action::Abort { error: WikiError::UnsupportedPlatform }));
}

#[test]
fn unexpected_answer_aborts() {
    let (mut session, _) = config(Platform::Windows).create_wiki(false);
    let a = session.step(Event::Done);
    assert!(matches!(a, Action::Abort { error: WikiError::UnexpectedEvent }));
}

#[test]
fn default_node_record_is_empty() {
    assert!(is_default(&NodeConfig { url: None, path: None }));
    assert!(!is_default(&NodeConfig { url: None, path: Some("n".to_string()) }));
}

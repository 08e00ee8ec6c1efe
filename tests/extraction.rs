use wiki_rust::archive::{archive_kind, has_suffix, plan_zip, root_name, ArchiveEntry, ArchiveKind};
use wiki_rust::error::WikiError;
use wiki_rust::fetch::fetch;
use wiki_rust::runtime::{file_name_of, pick_runtime_archive, runtime_url, Candidate, Platform};

fn entry(name: &str, is_dir: bool) -> ArchiveEntry {
    ArchiveEntry { name: name.to_string(), is_dir }
}

#[test]
fn second_fetch_into_the_same_destination_is_a_no_op() {
    let first = fetch("https://example.org/a.zip", "/w/a.zip", false).unwrap();
    assert_eq!(first.url, "https://example.org/a.zip");
    assert_eq!(first.dest, "/w/a.zip");
    assert!(fetch("https://example.org/a.zip", "/w/a.zip", true).is_none());
}

#[test]
fn extensions_pick_the_format() {
    assert_eq!(archive_kind("/w/wiki-master.zip").unwrap(), ArchiveKind::Zip);
    assert_eq!(
        archive_kind("/w/node-v12.13.0-linux-x64.tar.xz").unwrap(),
        ArchiveKind::TarXz
    );
    assert!(has_suffix("abc.zip", ".zip"));
    assert!(!has_suffix("zip", ".zip"));
}

#[test]
fn unrecognised_extension_is_refused() {
    assert_eq!(
        archive_kind("/w/node.rar"),
        Err(WikiError::UnsupportedArchive("/w/node.rar".to_string()))
    );
    assert_eq!(
        archive_kind("/w/node.tar.gz"),
        Err(WikiError::UnsupportedArchive("/w/node.tar.gz".to_string()))
    );
    assert!(archive_kind("/w/archive.zip.d/node.rar").is_err());
}

#[test]
fn existing_root_means_no_writes_but_same_root() {
    let entries = vec![entry("wiki-master", true), entry("wiki-master/index.js", false)];
    assert_eq!(root_name("/w/wiki-master.zip", &entries).unwrap(), "wiki-master");
    assert!(plan_zip("/w", &entries, true).is_empty());
}

#[test]
fn missing_root_means_every_entry_is_written() {
    let entries = vec![entry("wiki-master", true), entry("wiki-master/index.js", false)];
    let ops = plan_zip("/w", &entries, false);
    assert_eq!(ops.len(), 2);
    assert_eq!(ops[0].out_path, "/w/wiki-master");
    assert!(ops[0].is_dir);
    assert_eq!(ops[1].index, 1);
    assert_eq!(ops[1].out_path, "/w/wiki-master/index.js");
    assert!(!ops[1].is_dir);
}

#[test]
fn archive_without_a_named_first_entry_has_no_root() {
    assert_eq!(
        root_name("/w/empty.zip", &vec![]),
        Err(WikiError::EmptyArchive("/w/empty.zip".to_string()))
    );
    assert!(root_name("/w/odd.zip", &vec![entry("", true)]).is_err());
}

#[test]
fn root_skips_entries_whose_name_sanitises_to_nothing() {
    let entries = vec![
        entry("", true),
        entry("node-v12.13.0-linux-x64", true),
        entry("node-v12.13.0-linux-x64/bin/npm", false),
    ];
    assert_eq!(
        root_name("/w/node-v12.13.0-linux-x64.tar.xz", &entries).unwrap(),
        "node-v12.13.0-linux-x64"
    );
}

#[test]
fn runtime_archive_names_follow_the_url() {
    assert_eq!(
        file_name_of(runtime_url(Platform::Windows).unwrap()),
        "node-v12.13.1-win-x64.zip"
    );
    assert_eq!(
        file_name_of(runtime_url(Platform::Linux).unwrap()),
        "node-v12.13.0-linux-x64.tar.xz"
    );
    assert!(runtime_url(Platform::Other).is_none());
    assert_eq!(file_name_of("plain"), "plain");
}

#[test]
fn first_non_directory_match_is_the_runtime_archive() {
    let c = vec![
        Candidate { path: "/w/node-v1.x".to_string(), is_dir: true },
        Candidate { path: "/w/node-v1.zip".to_string(), is_dir: false },
        Candidate { path: "/w/node-v2.zip".to_string(), is_dir: false },
    ];
    assert_eq!(pick_runtime_archive(&c).unwrap(), "/w/node-v1.zip");
    assert!(pick_runtime_archive(&c[..1].to_vec()).is_none());
    assert!(pick_runtime_archive(&vec![]).is_none());
}

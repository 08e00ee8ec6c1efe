use wiki_rust::branch::Branch;
use wiki_rust::config::{NodeConfig, WikiConfig};
use wiki_rust::error::WikiError;
use wiki_rust::lifecycle::Action;
use wiki_rust::runtime::Platform;

fn installed() -> WikiConfig {
    let mut c = WikiConfig::new("~/sites/~wiki", "/home/u", Platform::Linux);
    c.node = NodeConfig {
        url: None,
        path: Some("node-v12.13.0-linux-x64".to_string()),
    };
    c
}

#[test]
fn every_tilde_becomes_the_home_directory() {
    let c = installed();
    assert_eq!(c.canonical_dir(), "/home/u/sites//home/uwiki");
    let plain = WikiConfig::new("/srv/wiki", "/home/u", Platform::Linux);
    assert_eq!(plain.canonical_dir(), "/srv/wiki");
    assert_eq!(plain.config_path(), "/srv/wiki/config.yaml");
}

#[test]
fn bundle_paths_sit_under_the_root() {
    let c = WikiConfig::new("/srv/wiki", "/home/u", Platform::Windows);
    assert_eq!(c.wiki_dir(), "/srv/wiki/wiki-master");
    assert_eq!(c.client_dir(), "/srv/wiki/wiki-client-master");
    assert_eq!(c.server_dir(), "/srv/wiki/wiki-server-master");
    assert_eq!(c.wiki_zip(), "/srv/wiki/wiki-master.zip");
    assert_eq!(c.client_zip(), "/srv/wiki/wiki-client-master.zip");
    assert_eq!(c.server_zip(), "/srv/wiki/wiki-server-master.zip");
    match c.install_exists() {
        Action::Probe { path } => assert_eq!(path, "/srv/wiki/config.yaml"),
        _ => panic!("expected a probe"),
    }
}

#[test]
fn downloads_cover_bundles_and_plugins() {
    let mut c = WikiConfig::new("/srv/wiki", "/home/u", Platform::Windows);
    c.plugins.push(Branch::parse("fedwiki/wiki-plugin-map:main").unwrap());
    let d = c.download_wiki().unwrap();
    assert_eq!(d.len(), 4);
    assert_eq!(d[0].url, "https://github.com/fedwiki/wiki/archive/master.zip");
    assert_eq!(d[0].dest, "/srv/wiki/wiki-master.zip");
    assert_eq!(d[1].url, "https://github.com/fedwiki/wiki-client/archive/master.zip");
    assert_eq!(d[2].url, "https://github.com/fedwiki/wiki-server/archive/master.zip");
    assert_eq!(d[3].url, "https://github.com/fedwiki/wiki-plugin-map/archive/main.zip");
    assert_eq!(d[3].dest, "/srv/wiki/wiki-plugin-map-main.zip");
    assert_eq!(c.bundles().len(), 4);
}

#[test]
fn run_starts_the_core_app_with_security_flags() {
    let c = installed();
    let call = c.run_wiki().unwrap();
    assert_eq!(call.program, "/home/u/sites//home/uwiki/node-v12.13.0-linux-x64/bin/npm");
    assert_eq!(call.dir, c.wiki_dir());
    assert_eq!(
        call.args,
        vec![
            "--scripts-prepend-node-path=true",
            "start",
            "--",
            "--security_type",
            "friends",
            "--cookie_secret",
            "a secret",
            "--farm"
        ]
    );
}

#[test]
fn run_without_a_runtime_fails() {
    let c = WikiConfig::new("/srv/wiki", "/home/u", Platform::Linux);
    assert_eq!(c.run_wiki().unwrap_err(), WikiError::NoRuntime);
    assert_eq!(c.install_wiki().unwrap_err(), WikiError::NoRuntime);
    assert!(c.delete_node().is_none());
}

#[test]
fn windows_package_manager_is_the_cmd_script() {
    let mut c = WikiConfig::new("C:/wiki", "C:/Users/u", Platform::Windows);
    c.node.path = Some("node-v12.13.1-win-x64".to_string());
    let call = c.link_dep("C:/wiki/wiki-client-master").unwrap();
    assert_eq!(call.program, "C:/wiki/node-v12.13.1-win-x64/npm.cmd");
    assert_eq!(call.dir, "C:/wiki/wiki-master");
    assert_eq!(call.args, vec!["--scripts-prepend-node-path=true", "link", "C:/wiki/wiki-client-master"]);
    let mut other = c.clone();
    other.platform = Platform::Other;
    assert_eq!(other.run_wiki().unwrap_err(), WikiError::UnsupportedPlatform);
}

#[test]
fn linker_plan_has_five_calls() {
    let c = installed();
    let calls = c.install_wiki().unwrap();
    assert_eq!(calls.len(), 5);
    assert_eq!(calls[0].dir, c.client_dir());
    assert_eq!(calls[4].dir, c.wiki_dir());
    assert_eq!(calls[2].args[2], c.client_dir());
    assert_eq!(calls[3].args[2], c.server_dir());
}

#[test]
fn teardown_targets() {
    let c = installed();
    let all = c.delete();
    assert_eq!(all.guard, c.config_path());
    assert_eq!(all.target, c.canonical_dir());
    assert_eq!(c.delete_wiki_repo().target, c.wiki_dir());
    assert_eq!(c.delete_server_repo().target, c.server_dir());
    assert_eq!(c.delete_client_repo().target, c.client_dir());
    assert_eq!(
        c.delete_node().unwrap().target,
        "/home/u/sites//home/uwiki/node-v12.13.0-linux-x64"
    );
}

#[test]
fn default_install_lives_in_the_home_directory() {
    assert_eq!(wiki_rust::config::default_dir("/home/u"), "/home/u/wiki");
    assert_eq!(wiki_rust::config::expand_tilde("~/a~", "/h"), "/h/a/h");
    assert_eq!(wiki_rust::config::expand_tilde("", "/h"), "");
}

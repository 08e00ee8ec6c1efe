use wiki_rust::branch::Branch;
use wiki_rust::error::WikiError;

#[test]
fn spec_without_branch_defaults_to_master() {
    let b = Branch::parse("fedwiki/wiki").unwrap();
    assert_eq!(b.user_repo_branch(), ("fedwiki", "wiki", "master"));
    assert_eq!(b.dir(), "wiki-master");
    assert_eq!(b.zip(), "wiki-master.zip");
    assert_eq!(b.archive_url(), "https://github.com/fedwiki/wiki/archive/master.zip");
}

#[test]
fn spec_with_branch_names_it_in_the_url() {
    let b = Branch::parse("owner/repo:x").unwrap();
    assert_eq!(b.user_repo_branch(), ("owner", "repo", "x"));
    assert!(b.archive_url().ends_with("/archive/x.zip"));
    assert_eq!(b.dir(), "repo-x");
    assert_eq!(b.zip(), "repo-x.zip");
}

#[test]
fn normalised_url_goes_through_the_url_parser() {
    let b = Branch::parse("Owner/Repo:feature").unwrap();
    assert_eq!(
        b.url().unwrap(),
        "https://github.com/Owner/Repo/archive/feature.zip"
    );
    let odd = Branch::parse("own er/re po").unwrap();
    assert_eq!(
        odd.url().unwrap(),
        "https://github.com/own%20er/re%20po/archive/master.zip"
    );
}

#[test]
fn repo_keeps_text_after_the_first_slash() {
    let b = Branch::parse("a/b/c:dev:x").unwrap();
    assert_eq!(b.user_repo_branch(), ("a", "b/c", "dev"));
}

#[test]
fn malformed_specs_fail_to_parse() {
    for bad in ["norepo", "/repo", "owner/", ":branch", "", "owner/:b"] {
        match Branch::parse(bad) {
            Err(WikiError::BranchSpec(s)) => assert_eq!(s, bad),
            other => panic!("{} parsed: {:?}", bad, other.map(|b| b.path_spec)),
        }
    }
}

use wiki_rust::error::WikiError;
use wiki_rust::roster::{contains, cutoff_millis, roster_sites, trimmed, DAY_MILLIS};
use wiki_rust::sitemap::{sitemap_url, sort_newest_first, Entry, Item, Neighborhood, Page, Sitemap};

fn entry(slug: &str, date: u64) -> Entry {
    Entry {
        slug: slug.to_string(),
        title: slug.to_uppercase(),
        date,
        synopsis: String::new(),
    }
}

#[test]
fn entries_come_most_recent_first() {
    let sorted = sort_newest_first(vec![entry("a", 5), entry("b", 9), entry("c", 1), entry("d", 9)]);
    let dates: Vec<u64> = sorted.iter().map(|e| e.date).collect();
    assert_eq!(dates, vec![9, 9, 5, 1]);
    let mut slugs: Vec<&str> = sorted.iter().map(|e| e.slug.as_str()).collect();
    slugs.sort();
    assert_eq!(slugs, vec!["a", "b", "c", "d"]);
    assert!(sort_newest_first(vec![]).is_empty());
}

#[test]
fn sitemap_is_named_after_its_host() {
    assert_eq!(
        sitemap_url("http://fed.wiki.org/view/welcome").unwrap(),
        "http://fed.wiki.org/system/sitemap.json"
    );
    let s = Sitemap::from_url("http://fed.wiki.org", vec![entry("x", 1), entry("y", 2)]).unwrap();
    assert_eq!(s.name, "fed.wiki.org");
    assert_eq!(s.entries[0].slug, "y");
    assert_eq!(
        Sitemap::from_url("not a url", vec![]).unwrap_err(),
        WikiError::Url("not a url".to_string())
    );
}

#[test]
fn neighborhood_collects_sites_in_order() {
    let mut n = Neighborhood::new();
    assert!(n.sites.is_empty());
    n.add("http://a.example", vec![entry("p", 3)]).unwrap();
    n.add("http://b.example", vec![]).unwrap();
    assert_eq!(n.add("::", vec![]).unwrap_err(), WikiError::Url("::".to_string()));
    assert_eq!(n.sites.len(), 2);
    let names: Vec<&str> = n.sites.iter().map(|s| s.name.as_str()).collect();
    assert_eq!(names, vec!["a.example", "b.example"]);
}

#[test]
fn page_json_lives_next_to_the_site() {
    assert_eq!(
        Page::json_url("http://code.fed.wiki", "our-learning-pod").unwrap(),
        "http://code.fed.wiki/our-learning-pod.json"
    );
    assert!(Page::json_url("code.fed.wiki", "x").is_err());
}

fn item(kind: &str, text: Option<&str>) -> Item {
    Item {
        item_type: kind.to_string(),
        id: "1".to_string(),
        text: text.map(|t| t.to_string()),
    }
}

#[test]
fn roster_lines_name_sites() {
    let page = Page {
        title: "Pod".to_string(),
        story: vec![
            item("paragraph", Some("not.a.roster")),
            item("roster", Some("Our Learning Pod\n  a.example \n\n\tb.example\r\nc.other")),
            item("roster", None),
            item("roster", Some("d.example")),
        ],
        journal: vec![],
    };
    assert_eq!(
        roster_sites(&page, None),
        vec!["http://a.example", "http://b.example", "http://c.other", "http://d.example"]
    );
    assert_eq!(
        roster_sites(&page, Some("example")),
        vec!["http://a.example", "http://b.example", "http://d.example"]
    );
    assert!(roster_sites(&page, Some("nowhere")).is_empty());
}

#[test]
fn trimming_and_searching_text() {
    assert_eq!(trimmed("\u{3000} x y \n"), "x y");
    assert_eq!(trimmed("   "), "");
    assert!(contains("fed.wiki.org", "wiki"));
    assert!(contains("abc", ""));
    assert!(!contains("ab", "abc"));
    assert!(!contains("fed.wiki.org", "wikis"));
}

#[test]
fn recent_titles_respect_the_cutoff() {
    assert_eq!(cutoff_millis(10 * DAY_MILLIS, 3), 7 * DAY_MILLIS);
    assert_eq!(cutoff_millis(5, 1), 0);
    assert_eq!(cutoff_millis(5, u64::MAX), 0);
    let s = Sitemap::from_url("http://a.example", vec![entry("old", 100), entry("new", 300), entry("mid", 200)])
        .unwrap();
    assert_eq!(s.recent_titles(200), vec!["NEW", "MID"]);
    assert_eq!(s.recent_titles(0).len(), 3);
    assert!(s.recent_titles(301).is_empty());
}

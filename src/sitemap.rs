use vstd::prelude::*;

use crate::error::WikiError;
use crate::urls::{host_of, join_url, parse_url, url_host, url_joined, url_parsed};

verus! {

broadcast use vstd::multiset::group_multiset_axioms, vstd::seq_lib::group_to_multiset_ensures;

/// One page of a site's sitemap; `date` is in milliseconds since the epoch.
#[derive(Debug, Clone)]
pub struct Entry {
    pub slug: String,
    pub title: String,
    pub date: u64,
    pub synopsis: String,
}

/// A site and its pages, most recent first.
#[derive(Debug, Clone)]
pub struct Sitemap {
    pub name: String,
    pub entries: Vec<Entry>,
}

/// Several sites' sitemaps, in the order they were added.
#[derive(Debug, Clone)]
pub struct Neighborhood {
    pub sites: Vec<Sitemap>,
}

/// One item of a page's story.
#[derive(Debug, Clone)]
pub struct Item {
    pub item_type: String,
    pub id: String,
    pub text: Option<String>,
}

/// One edit in a page's journal; `date` is in milliseconds since the epoch.
#[derive(Debug, Clone)]
pub struct Change {
    pub change_type: String,
    pub date: u64,
}

/// A page: its title, its story and its journal.
#[derive(Debug, Clone)]
pub struct Page {
    pub title: String,
    pub story: Vec<Item>,
    pub journal: Vec<Change>,
}

/// Most recent first.
pub open spec fn newest_first(s: Seq<Entry>) -> bool {
    forall|i: int, j: int| 0 <= i < j < s.len() ==> s[i].date >= s[j].date
}

pub open spec fn sitemap_path() -> Seq<char> {
    "/system/sitemap.json"@
}

/// The entries, most recent first.
pub fn sort_newest_first(entries: Vec<Entry>) -> (r: Vec<Entry>)
    ensures
        newest_first(r@),
        r@.to_multiset() == entries@.to_multiset(),
{
    let ghost input = entries@;
    let mut rest = entries;
    let mut out: Vec<Entry> = Vec::new();
    proof {
        vstd::multiset::lemma_multiset_empty_len(out@.to_multiset());
        assert(out@.to_multiset().add(rest@.to_multiset()) =~= input.to_multiset());
    }
    while rest.len() > 0
        invariant
            newest_first(out@),
            out@.to_multiset().add(rest@.to_multiset()) == input.to_multiset(),
        decreases rest@.len(),
    {
        let ghost rest_before = rest@;
        let e = rest.remove(0);
        let mut j: usize = 0;
        while j < out.len() && out[j].date >= e.date
            invariant
                0 <= j <= out@.len(),
                forall|k: int| 0 <= k < j ==> out@[k].date >= e.date,
            decreases out@.len() - j,
        {
            j = j + 1;
        }
        let ghost out_before = out@;
        out.insert(j, e);
        proof {
            assert(out@ == out_before.insert(j as int, e));
            assert forall|a: int, b: int| 0 <= a < b < out@.len() implies out@[a].date
                >= out@[b].date by {
                if j < out_before.len() {
                    assert(out_before[j as int].date < e.date);
                }
                if a < j && b == j {
                } else if a == j && b > j {
                    assert(out@[b] == out_before[b - 1]);
                    assert(out_before[j as int].date >= out_before[b - 1].date || b - 1 == j);
                } else if a < j && b > j {
                    assert(out@[b] == out_before[b - 1]);
                } else if b < j {
                } else {
                    assert(out@[a] == out_before[a - 1]);
                    assert(out@[b] == out_before[b - 1]);
                }
            }
            assert(rest_before.remove(0) == rest@);
            assert(rest_before.to_multiset().count(e) > 0) by {
                assert(rest_before.contains(e)) by {
                    assert(rest_before[0] == e);
                }
            }
            assert(rest_before.to_multiset() =~= rest@.to_multiset().insert(e));
            assert(out@.to_multiset().add(rest@.to_multiset()) =~= out_before.to_multiset().add(
                rest_before.to_multiset(),
            ));
        }
    }
    proof {
        vstd::multiset::lemma_multiset_empty_len(rest@.to_multiset());
        assert(out@.to_multiset().add(rest@.to_multiset()) =~= out@.to_multiset());
    }
    out
}

/// Where a site's sitemap is published.
pub fn sitemap_url(url: &str) -> (r: Result<String, WikiError>)
    ensures
        match r {
            Ok(u) => url_joined(url@, sitemap_path()) == Some(u@),
            Err(e) => url_joined(url@, sitemap_path()) is None && (e matches WikiError::Url(t)
                && t@ == url@),
        },
{
    match join_url(url, "/system/sitemap.json") {
        Some(u) => Ok(u),
        None => Err(WikiError::Url(String::from_str(url))),
    }
}

impl Sitemap {
    /// The sitemap of the site at `url` from its published entries: named after the
    /// host of its sitemap URL, most recent first.
    pub fn from_url(url: &str, entries: Vec<Entry>) -> (r: Result<Sitemap, WikiError>)
        ensures
            match r {
                Ok(s) => url_joined(url@, sitemap_path()) matches Some(j) && url_host(j) == Some(
                    s.name@,
                ) && newest_first(s.entries@) && s.entries@.to_multiset()
                    == entries@.to_multiset(),
                Err(e) => (e matches WikiError::Url(t) && t@ == url@) && (url_joined(
                    url@,
                    sitemap_path(),
                ) matches Some(j) ==> url_host(j) is None),
            },
    {
        let joined = sitemap_url(url)?;
        match host_of(joined.as_str()) {
            Some(name) => Ok(Sitemap { name, entries: sort_newest_first(entries) }),
            None => Err(WikiError::Url(String::from_str(url))),
        }
    }
}

impl Neighborhood {
    pub fn new() -> (r: Neighborhood)
        ensures
            r.sites@.len() == 0,
    {
        Neighborhood { sites: Vec::new() }
    }

    /// Adds the sitemap of the site at `url`; nothing changes when it cannot be built.
    pub fn add(&mut self, url: &str, entries: Vec<Entry>) -> (r: Result<(), WikiError>)
        ensures
            match r {
                Ok(()) => {
                    &&& final(self).sites@.len() == old(self).sites@.len() + 1
                    &&& final(self).sites@.take(old(self).sites@.len() as int) == old(self).sites@
                    &&& (url_joined(url@, sitemap_path()) matches Some(j) && url_host(j) == Some(
                        final(self).sites@.last().name@,
                    ))
                    &&& newest_first(final(self).sites@.last().entries@)
                    &&& final(self).sites@.last().entries@.to_multiset() == entries@.to_multiset()
                },
                Err(e) => {
                    &&& final(self).sites@ == old(self).sites@
                    &&& e matches WikiError::Url(t) && t@ == url@
                    &&& url_joined(url@, sitemap_path()) matches Some(j) ==> url_host(j) is None
                },
            },
    {
        let site = Sitemap::from_url(url, entries)?;
        self.sites.push(site);
        assert(self.sites@.take(old(self).sites@.len() as int) =~= old(self).sites@);
        Ok(())
    }
}

impl Page {
    /// Where the page `slug` of the site `site_name` is loaded from.
    pub fn json_url(site_name: &str, slug: &str) -> (r: Result<String, WikiError>)
        ensures
            match r {
                Ok(u) => url_parsed(site_name@ + "/"@ + slug@ + ".json"@) == Some(u@),
                Err(e) => url_parsed(site_name@ + "/"@ + slug@ + ".json"@) is None && (e matches WikiError::Url(
                    t,
                ) && t@ == site_name@ + "/"@ + slug@ + ".json"@),
            },
    {
        let text = String::from_str(site_name).concat("/").concat(slug).concat(".json");
        match parse_url(text.as_str()) {
            Some(u) => Ok(u),
            None => Err(WikiError::Url(text)),
        }
    }
}

} // verus!

use vstd::prelude::*;

use crate::config::views;
use crate::sitemap::{Entry, Item, Page, Sitemap};
use crate::strings::{find_char, index_of, lemma_index_of_bounds};

verus! {

/// The characters that `str::trim` removes: Unicode's White_Space property.
pub open spec fn is_space(c: char) -> bool {
    let u = c as u32;
    ||| 0x09 <= u <= 0x0D
    ||| u == 0x20
    ||| u == 0x85
    ||| u == 0xA0
    ||| u == 0x1680
    ||| 0x2000 <= u <= 0x200A
    ||| u == 0x2028
    ||| u == 0x2029
    ||| u == 0x202F
    ||| u == 0x205F
    ||| u == 0x3000
}

pub fn space(c: char) -> (r: bool)
    ensures
        r == is_space(c),
{
    let u = c as u32;
    (0x09 <= u && u <= 0x0D) || u == 0x20 || u == 0x85 || u == 0xA0 || u == 0x1680 || (0x2000
        <= u && u <= 0x200A) || u == 0x2028 || u == 0x2029 || u == 0x202F || u == 0x205F || u
        == 0x3000
}

/// Number of leading white-space characters.
pub open spec fn lead(s: Seq<char>) -> int
    decreases s.len(),
{
    if s.len() > 0 && is_space(s[0]) {
        1 + lead(s.drop_first())
    } else {
        0
    }
}

/// Number of trailing white-space characters.
pub open spec fn trail(s: Seq<char>) -> int
    decreases s.len(),
{
    if s.len() > 0 && is_space(s.last()) {
        1 + trail(s.drop_last())
    } else {
        0
    }
}

/// `s` without leading and trailing white space.
pub open spec fn trim(s: Seq<char>) -> Seq<char> {
    let t = s.skip(lead(s));
    t.take(t.len() - trail(t))
}

proof fn lemma_lead(s: Seq<char>, k: int)
    requires
        0 <= k <= s.len(),
        forall|j: int| 0 <= j < k ==> is_space(s[j]),
        k < s.len() ==> !is_space(s[k]),
    ensures
        lead(s) == k,
    decreases s.len(),
{
    if k > 0 {
        let t = s.drop_first();
        assert forall|j: int| 0 <= j < k - 1 implies is_space(t[j]) by {
            assert(t[j] == s[j + 1]);
        }
        if k < s.len() {
            assert(t[k - 1] == s[k]);
        }
        lemma_lead(t, k - 1);
    }
}

proof fn lemma_trail(s: Seq<char>, k: int)
    requires
        0 <= k <= s.len(),
        forall|j: int| s.len() - k <= j < s.len() ==> is_space(s[j]),
        k < s.len() ==> !is_space(s[s.len() - k - 1]),
    ensures
        trail(s) == k,
    decreases s.len(),
{
    if k > 0 {
        let t = s.drop_last();
        assert forall|j: int| t.len() - (k - 1) <= j < t.len() implies is_space(t[j]) by {
            assert(t[j] == s[j]);
        }
        if k < s.len() {
            assert(t[t.len() - (k - 1) - 1] == s[s.len() - k - 1]);
        }
        lemma_trail(t, k - 1);
    }
}

/// `s` without leading and trailing white space.
pub fn trimmed(s: &str) -> (r: &str)
    ensures
        r@ == trim(s@),
{
    let n = s.unicode_len();
    let mut i: usize = 0;
    while i < n && space(s.get_char(i))
        invariant
            n == s@.len(),
            0 <= i <= n,
            forall|j: int| 0 <= j < i ==> is_space(s@[j]),
        decreases n - i,
    {
        i = i + 1;
    }
    proof {
        lemma_lead(s@, i as int);
    }
    let ghost t = s@.skip(i as int);
    let mut j: usize = n;
    while j > i && space(s.get_char(j - 1))
        invariant
            n == s@.len(),
            i <= j <= n,
            t == s@.skip(i as int),
            forall|k: int| j <= k < n ==> is_space(s@[k]),
        decreases j,
    {
        j = j - 1;
    }
    proof {
        assert forall|k: int| t.len() - (n - j) <= k < t.len() implies is_space(t[k]) by {
            assert(t[k] == s@[k + i]);
        }
        if n - j < t.len() {
            assert(t[t.len() - (n - j) - 1] == s@[j - 1]);
        }
        lemma_trail(t, n - j);
    }
    let r = s.substring_char(i, j);
    assert(r@ =~= t.take(t.len() - trail(t)));
    r
}

/// `t` occurs in `s`.
pub open spec fn contains_text(s: Seq<char>, t: Seq<char>) -> bool {
    exists|i: int| 0 <= i <= s.len() - t.len() && #[trigger] s.subrange(i, i + t.len()) == t
}

pub fn contains(s: &str, t: &str) -> (r: bool)
    ensures
        r == contains_text(s@, t@),
{
    let n = s.unicode_len();
    let m = t.unicode_len();
    if m > n {
        return false;
    }
    let mut i: usize = 0;
    while i <= n - m
        invariant
            n == s@.len(),
            m == t@.len(),
            m <= n,
            0 <= i <= n - m + 1,
            forall|k: int| 0 <= k < i ==> #[trigger] s@.subrange(k, k + m) != t@,
        decreases n - m + 1 - i,
    {
        let mut j: usize = 0;
        while j < m && s.get_char(i + j) == t.get_char(j)
            invariant
                n == s@.len(),
                m == t@.len(),
                i + m <= n,
                0 <= j <= m,
                forall|k: int| 0 <= k < j ==> s@[i + k] == t@[k],
            decreases m - j,
        {
            j = j + 1;
        }
        if j == m {
            assert(s@.subrange(i as int, i + m) =~= t@);
            return true;
        }
        assert(s@.subrange(i as int, i + m)[j as int] != t@[j as int]);
        i = i + 1;
    }
    false
}

/// A roster line names a site: not blank, not the roster's heading, and holding the
/// filter text when there is one.
pub open spec fn kept_line(line: Seq<char>, filter: Option<Seq<char>>) -> bool {
    let t = trim(line);
    &&& t.len() > 0
    &&& !contains_text(t, "Our Learning Pod"@)
    &&& (filter matches Some(f) ==> contains_text(t, f))
}

/// The site URLs named by the lines of a roster's text, in order.
pub open spec fn text_sites(s: Seq<char>, filter: Option<Seq<char>>) -> Seq<Seq<char>>
    decreases s.len(),
    via text_sites_decreases
{
    let k = index_of(s, '\n');
    let line = s.take(k);
    let here = if kept_line(line, filter) {
        seq!["http://"@ + trim(line)]
    } else {
        seq![]
    };
    if k >= s.len() {
        here
    } else {
        here + text_sites(s.skip(k + 1), filter)
    }
}

#[via_fn]
proof fn text_sites_decreases(s: Seq<char>, filter: Option<Seq<char>>) {
    lemma_index_of_bounds(s, '\n');
}

/// The site URLs named by the roster items of a story, in order.
pub open spec fn story_sites(items: Seq<Item>, filter: Option<Seq<char>>) -> Seq<Seq<char>>
    decreases items.len(),
{
    if items.len() == 0 {
        seq![]
    } else {
        let it = items.last();
        let here = if it.item_type@ == "roster"@ && it.text is Some {
            text_sites(it.text.unwrap()@, filter)
        } else {
            seq![]
        };
        story_sites(items.drop_last(), filter) + here
    }
}

/// Appends the sites named by one roster text.
fn push_text_sites(out: &mut Vec<String>, text: &str, filter: Option<&str>)
    ensures
        views(final(out)@) == views(old(out)@) + text_sites(
            text@,
            match filter {
                Some(f) => Some(f@),
                None => None,
            },
        ),
{
    let ghost f = match filter {
        Some(f) => Some(f@),
        None => None,
    };
    let n = text.unicode_len();
    let mut p: usize = 0;
    let ghost start = views(out@);
    assert(text@.skip(0) =~= text@);
    loop
        invariant
            n == text@.len(),
            0 <= p <= n,
            start == views(old(out)@),
            f == match filter {
                Some(x) => Some(x@),
                None => None,
            },
            views(out@) + text_sites(text@.skip(p as int), f) == start + text_sites(text@, f),
        decreases n - p,
    {
        let rest = text.substring_char(p, n);
        assert(rest@ == text@.skip(p as int));
        proof {
            lemma_index_of_bounds(rest@, '\n');
        }
        let k = find_char(rest, '\n');
        let line = trimmed(rest.substring_char(0, k));
        let mut keep = line.unicode_len() > 0 && !contains(line, "Our Learning Pod");
        if let Some(s) = filter {
            keep = keep && contains(line, s);
        }
        let ghost before = views(out@);
        if keep {
            out.push(String::from_str("http://").concat(line));
        }
        proof {
            assert(keep == kept_line(rest@.take(k as int), f));
            let here = if keep {
                seq!["http://"@ + trim(rest@.take(k as int))]
            } else {
                seq![]
            };
            assert(views(out@) =~= before + here);
            if k < rest@.len() {
                assert(rest@.skip(k + 1) =~= text@.skip(p + k + 1));
                assert(text_sites(rest@, f) == here + text_sites(rest@.skip(k + 1), f));
                assert(views(out@) + text_sites(text@.skip(p + k + 1), f) =~= before
                    + text_sites(rest@, f));
            } else {
                assert(text_sites(rest@, f) == here);
            }
        }
        if k >= rest.unicode_len() {
            assert(views(out@) =~= start + text_sites(text@, f));
            return;
        }
        p = p + k + 1;
    }
}

/// The URLs of the sites that a story's rosters name, filtered by `filter` when given.
pub fn roster_sites(page: &Page, filter: Option<&str>) -> (r: Vec<String>)
    ensures
        views(r@) == story_sites(
            page.story@,
            match filter {
                Some(f) => Some(f@),
                None => None,
            },
        ),
{
    let ghost f = match filter {
        Some(f) => Some(f@),
        None => None,
    };
    let mut out: Vec<String> = Vec::new();
    let roster = String::from_str("roster");
    let mut i: usize = 0;
    while i < page.story.len()
        invariant
            0 <= i <= page.story@.len(),
            roster@ == "roster"@,
            f == match filter {
                Some(x) => Some(x@),
                None => None,
            },
            views(out@) == story_sites(page.story@.take(i as int), f),
        decreases page.story@.len() - i,
    {
        let it = &page.story[i];
        assert(page.story@.take(i + 1).drop_last() =~= page.story@.take(i as int));
        if it.item_type == roster {
            if let Some(text) = &it.text {
                push_text_sites(&mut out, text.as_str(), filter);
            }
        }
        i = i + 1;
    }
    assert(page.story@.take(page.story@.len() as int) =~= page.story@);
    out
}

/// Milliseconds in a day.
pub const DAY_MILLIS: u64 = 86400000;

/// The earliest date, in milliseconds since the epoch, that lies within `days` days of `now`.
pub fn cutoff_millis(now: u64, days: u64) -> (r: u64)
    ensures
        r == if now >= days * DAY_MILLIS {
            now - days * DAY_MILLIS
        } else {
            0
        },
{
    match days.checked_mul(DAY_MILLIS) {
        Some(span) => if now >= span {
            now - span
        } else {
            0
        },
        None => 0,
    }
}

/// Titles of the entries dated at or after `since`, in the sitemap's order.
pub open spec fn titles_since(entries: Seq<Entry>, since: u64) -> Seq<Seq<char>>
    decreases entries.len(),
{
    if entries.len() == 0 {
        seq![]
    } else {
        let e = entries.last();
        titles_since(entries.drop_last(), since) + if e.date >= since {
            seq![e.title@]
        } else {
            seq![]
        }
    }
}

impl Sitemap {
    /// Titles of the pages changed at or after `since`, most recent first.
    pub fn recent_titles(&self, since: u64) -> (r: Vec<String>)
        ensures
            views(r@) == titles_since(self.entries@, since),
    {
        let mut out: Vec<String> = Vec::new();
        let mut i: usize = 0;
        while i < self.entries.len()
            invariant
                0 <= i <= self.entries@.len(),
                views(out@) == titles_since(self.entries@.take(i as int), since),
            decreases self.entries@.len() - i,
        {
            let e = &self.entries[i];
            let ghost before = views(out@);
            assert(self.entries@.take(i + 1).drop_last() =~= self.entries@.take(i as int));
            if e.date >= since {
                out.push(e.title.clone());
            }
            assert(views(out@) =~= titles_since(self.entries@.take(i + 1), since));
            i = i + 1;
        }
        assert(self.entries@.take(self.entries@.len() as int) =~= self.entries@);
        out
    }
}

} // verus!

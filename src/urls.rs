use vstd::prelude::*;

verus! {

/// The serialisation of `s` parsed as an absolute URL; `None` when it does not parse.
pub uninterp spec fn url_parsed(s: Seq<char>) -> Option<Seq<char>>;

/// The serialisation of `input` resolved against the URL `base`; `None` when either
/// does not parse.
pub uninterp spec fn url_joined(base: Seq<char>, input: Seq<char>) -> Option<Seq<char>>;

/// The host of the URL `s`; `None` when it does not parse or has no host.
pub uninterp spec fn url_host(s: Seq<char>) -> Option<Seq<char>>;

/// Relies on `url::Url::parse`: its result depends on the text alone.
#[verifier::external_body]
pub(crate) fn parse_url(s: &str) -> (r: Option<String>)
    ensures
        match r {
            Some(t) => url_parsed(s@) == Some(t@),
            None => url_parsed(s@) is None,
        },
{
    url::Url::parse(s).ok().map(String::from)
}

/// Relies on `url::Url::join` (after `url::Url::parse` of the base): its result
/// depends on the two texts alone.
#[verifier::external_body]
pub(crate) fn join_url(base: &str, input: &str) -> (r: Option<String>)
    ensures
        match r {
            Some(t) => url_joined(base@, input@) == Some(t@),
            None => url_joined(base@, input@) is None,
        },
{
    match url::Url::parse(base) {
        Ok(b) => b.join(input).ok().map(String::from),
        Err(_) => None,
    }
}

/// Relies on `url::Url::host_str` (after `url::Url::parse`): its result depends on
/// the text alone.
#[verifier::external_body]
pub(crate) fn host_of(s: &str) -> (r: Option<String>)
    ensures
        match r {
            Some(t) => url_host(s@) == Some(t@),
            None => url_host(s@) is None,
        },
{
    match url::Url::parse(s) {
        Ok(u) => u.host_str().map(|h| h.to_string()),
        Err(_) => None,
    }
}

} // verus!

//! Web addresses, built and read with the `url` crate.
use vstd::prelude::*;

verus! {

/// The text form of the URL that the `url` crate parses from `text`, if it parses.
pub uninterp spec fn url_serialization(text: Seq<char>) -> Option<Seq<char>>;

/// The text form of the URL parsed from `base` with `pairs` appended to its
/// query in form encoding, if `base` parses.
pub uninterp spec fn url_with_query_pairs(
    base: Seq<char>,
    pairs: Seq<(Seq<char>, Seq<char>)>,
) -> Option<Seq<char>>;

/// The text form of `reference` resolved against the URL parsed from `base`,
/// if both steps succeed.
pub uninterp spec fn url_joined(base: Seq<char>, reference: Seq<char>) -> Option<Seq<char>>;

/// The path and the form-decoded query pairs of the URL parsed from `text`,
/// if it parses.
pub uninterp spec fn url_path_and_query(text: Seq<char>) -> Option<
    (Seq<char>, Seq<(Seq<char>, Seq<char>)>),
>;

/// The content of a list of text pairs.
pub open spec fn pairs_view(pairs: Seq<(String, String)>) -> Seq<(Seq<char>, Seq<char>)> {
    pairs.map_values(|p: (String, String)| (p.0@, p.1@))
}

/// `url::Url::parse` followed by the URL's text form (`Url::to_string`).
/// The contract only names the result.
#[verifier::external_body]
pub(crate) fn parse_url(text: &str) -> (r: Option<String>)
    ensures
        match r {
            Some(s) => url_serialization(text@) == Some(s@),
            None => url_serialization(text@) is None,
        },
{
    url::Url::parse(text).ok().map(|parsed| parsed.to_string())
}

/// `url::Url::parse` of `base`, then `query_pairs_mut().extend_pairs(pairs)`,
/// then the URL's text form. The contract only names the result.
#[verifier::external_body]
pub(crate) fn add_query_pairs(base: &str, pairs: &Vec<(String, String)>) -> (r: Option<String>)
    ensures
        match r {
            Some(s) => url_with_query_pairs(base@, pairs_view(pairs@)) == Some(s@),
            None => url_with_query_pairs(base@, pairs_view(pairs@)) is None,
        },
{
    let mut parsed = url::Url::parse(base).ok()?;
    parsed.query_pairs_mut().extend_pairs(pairs.iter().map(|(k, v)| (k.as_str(), v.as_str())));
    Some(parsed.to_string())
}

/// `url::Url::parse` of `base`, then `Url::join` with `reference`, then the
/// URL's text form. The contract only names the result.
#[verifier::external_body]
pub(crate) fn join_url(base: &str, reference: &str) -> (r: Option<String>)
    ensures
        match r {
            Some(s) => url_joined(base@, reference@) == Some(s@),
            None => url_joined(base@, reference@) is None,
        },
{
    url::Url::parse(base).and_then(|parsed| parsed.join(reference)).ok().map(|u| u.to_string())
}

/// `url::Url::parse`, then `Url::path` and the pairs of `Url::query_pairs`.
/// The contract only names the result.
#[verifier::external_body]
pub(crate) fn path_and_query(text: &str) -> (r: Option<(String, Vec<(String, String)>)>)
    ensures
        match r {
            Some((path, query)) => url_path_and_query(text@) == Some((path@, pairs_view(query@))),
            None => url_path_and_query(text@) is None,
        },
{
    url::Url::parse(text).ok().map(
        |parsed| (parsed.path().to_string(), parsed.query_pairs().into_owned().collect()),
    )
}

} // verus!

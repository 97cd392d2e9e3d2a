//! The document address that a page address may carry: which link, if any,
//! is to be fetched and loaded as a document.

use vstd::prelude::*;

verus! {

/// `url::ParseError`, carried through as an opaque value.
#[verifier::external_type_specification]
#[verifier::external_body]
pub struct ExParseError(url::ParseError);

/// The key-value pairs of the query string of an address, in order, as the
/// `url` crate parses them; `None` where it does not parse the address.
pub uninterp spec fn url_query_pairs(href: Seq<char>) -> Option<Seq<(Seq<char>, Seq<char>)>>;

/// The links of kind URL that the `linkify` crate finds in a text, in order.
pub uninterp spec fn url_links(text: Seq<char>) -> Seq<Seq<char>>;

/// The models of a list of key-value pairs.
pub open spec fn pair_views(pairs: Seq<(String, String)>) -> Seq<(Seq<char>, Seq<char>)> {
    Seq::new(pairs.len(), |i: int| (pairs[i].0@, pairs[i].1@))
}

/// Calls `url::Url::parse` and, on the parsed address, `url::Url::query_pairs`,
/// whose pairs it copies out in order. Trusted: whether the address parses,
/// and the pairs, are a function of the text alone.
#[verifier::external_body]
pub(crate) fn parse_query_pairs(href: &str) -> (r: Result<Vec<(String, String)>, url::ParseError>)
    ensures
        match r {
            Ok(pairs) => url_query_pairs(href@) == Some(pair_views(pairs@)),
            Err(_) => url_query_pairs(href@).is_none(),
        },
{
    Ok(url::Url::parse(href)?.query_pairs().into_owned().collect())
}

/// Calls `linkify::LinkFinder::links` on a finder restricted to
/// `linkify::LinkKind::Url`, and copies the text of each link. Trusted: the
/// links are a function of the text alone.
#[verifier::external_body]
pub(crate) fn find_url_links(text: &str) -> (r: Vec<String>)
    ensures
        r.deep_view() == url_links(text@),
{
    let mut finder = linkify::LinkFinder::new();
    finder.kinds(&[linkify::LinkKind::Url]);
    finder.links(text).map(|link| link.as_str().to_owned()).collect()
}

/// Why a page address names no document.
#[derive(Clone, Copy, Debug, PartialEq, Eq, Structural)]
pub enum InboundError {
    /// The page address is no well-formed address.
    InvalidAddress,
}

/// The value of the `document` parameter: that of the last pair with this
/// key, as a later pair replaces an earlier one.
pub open spec fn document_value(pairs: Seq<(Seq<char>, Seq<char>)>) -> Option<Seq<char>>
    decreases pairs.len(),
{
    if pairs.len() == 0 {
        None
    } else if pairs.last().0 == "document"@ {
        Some(pairs.last().1)
    } else {
        document_value(pairs.drop_last())
    }
}

/// The link to fetch: the only one, where exactly one was found.
pub open spec fn link_to_fetch(links: Seq<Seq<char>>) -> Option<Seq<char>> {
    if links.len() == 1 {
        Some(links[0])
    } else {
        None
    }
}

/// The document link that the query pairs of a page address carry.
pub open spec fn document_link(pairs: Seq<(Seq<char>, Seq<char>)>) -> Option<Seq<char>> {
    match document_value(pairs) {
        Some(value) => link_to_fetch(url_links(value)),
        None => None,
    }
}

/// The model of an optional text.
pub open spec fn text_view(text: Option<String>) -> Option<Seq<char>> {
    match text {
        Some(t) => Some(t@),
        None => None,
    }
}

/// The value of the `document` parameter among the query pairs.
pub fn document_parameter(pairs: &Vec<(String, String)>) -> (r: Option<String>)
    ensures
        text_view(r) == document_value(pair_views(pairs@)),
{
    let key = "document".to_owned();
    let mut i: usize = pairs.len();
    assert(pair_views(pairs@).take(i as int) =~= pair_views(pairs@));
    while i > 0
        invariant
            i <= pairs.len(),
            key@ == "document"@,
            document_value(pair_views(pairs@)) == document_value(pair_views(pairs@).take(i as int)),
        decreases i,
    {
        proof {
            let front = pair_views(pairs@).take(i as int);
            assert(front.drop_last() =~= pair_views(pairs@).take(i - 1));
            assert(front.last() == pair_views(pairs@)[i - 1]);
        }
        i -= 1;
        if pairs[i].0 == key {
            return Some(pairs[i].1.clone());
        }
    }
    None
}

/// Picks the link to fetch among those found: the only one, or none where
/// there are several or none at all.
pub fn single_link(links: Vec<String>) -> (r: Option<String>)
    ensures
        text_view(r) == link_to_fetch(links.deep_view()),
{
    if links.len() == 1 {
        Some(links[0].clone())
    } else {
        None
    }
}

/// The document link among the query pairs of a page address.
pub fn link_in_pairs(pairs: &Vec<(String, String)>) -> (r: Option<String>)
    ensures
        text_view(r) == document_link(pair_views(pairs@)),
{
    match document_parameter(pairs) {
        Some(value) => single_link(find_url_links(value.as_str())),
        None => None,
    }
}

/// Decides what to fetch for a page address: the single link in its
/// `document` parameter. `Ok(None)` where the address has no such parameter
/// or the parameter holds no link or several; an error where the address
/// does not parse.
pub fn load_from_url(href: &str) -> (r: Result<Option<String>, InboundError>)
    ensures
        match url_query_pairs(href@) {
            Some(pairs) => r.is_ok() && text_view(r.unwrap()) == document_link(pairs),
            None => r == Err::<Option<String>, InboundError>(InboundError::InvalidAddress),
        },
{
    match parse_query_pairs(href) {
        Ok(pairs) => Ok(link_in_pairs(&pairs)),
        Err(_) => Err(InboundError::InvalidAddress),
    }
}

} // verus!

//! URLs as text, read the way the `url` crate reads them.

use url::Url;
use vstd::prelude::*;

verus! {

/// `url::ParseError`, the reason why a text is no absolute URL. Nothing is
/// assumed of its values.
#[verifier::external_type_specification]
#[verifier::external_body]
pub struct ExParseError(url::ParseError);

/// The absolute URL that `text` stands for, written in its normal form, or
/// nothing where `text` is no absolute URL: what `url::Url::parse` makes of
/// `text`.
pub uninterp spec fn absolute_url(text: Seq<char>) -> Option<Seq<char>>;

/// The pairs of name and value in the query of the URL `text`, decoded and
/// in the order in which the query holds them, or nothing where `text` is no
/// absolute URL: what `url::Url::query_pairs` yields for `text`.
pub uninterp spec fn query_of(text: Seq<char>) -> Option<Seq<(Seq<char>, Seq<char>)>>;

/// Calls `url::Url::parse` and turns the URL into its text with
/// `String::from`.
///
/// Not proved: that the outcome depends on `text` alone. What the text of a
/// parsed URL is, and which texts are refused, is left to the `url` crate.
#[verifier::external_body]
pub(crate) fn parse_url(text: &str) -> (parsed: Result<String, url::ParseError>)
    ensures
        match parsed {
            Ok(url) => absolute_url(text@) == Some(url@),
            Err(_) => absolute_url(text@) is None,
        },
{
    let url = Url::parse(text)?;
    Ok(String::from(url))
}

/// Calls `url::Url::parse` and then `url::Url::query_pairs` on the URL, and
/// collects the pairs as owned strings.
///
/// Not proved: that the outcome depends on `text` alone. How a query is
/// split and decoded is left to the `url` crate.
#[verifier::external_body]
pub(crate) fn query_pairs(text: &str) -> (pairs: Result<Vec<(String, String)>, url::ParseError>)
    ensures
        match pairs {
            Ok(found) => query_of(text@) == Some(found.deep_view()),
            Err(_) => query_of(text@) is None,
        },
{
    let url = Url::parse(text)?;
    Ok(url.query_pairs().into_owned().collect())
}

} // verus!

//! The address of the feed.

use vstd::prelude::*;

verus! {

/// What the URL parser makes of an address: the URL in its normal form, or
/// the name of the reason for which the address is no absolute URL.
pub uninterp spec fn parsed_url(address: Seq<char>) -> Result<Seq<char>, Seq<char>>;

/// Calls `url::Url::parse`. The outcome depends on the address alone; it is
/// the URL written out again (`String::from(Url)`), or else the `Debug` form
/// of the `url::ParseError`, which is the name of its variant.
#[verifier::external_body]
pub(crate) fn parse_url(address: &str) -> (outcome: Result<String, String>)
    ensures
        match outcome {
            Ok(url) => parsed_url(address@) == Ok::<Seq<char>, Seq<char>>(url@),
            Err(reason) => parsed_url(address@) == Err::<Seq<char>, Seq<char>>(reason@),
        },
{
    match url::Url::parse(address) {
        Ok(url) => Ok(String::from(url)),
        Err(error) => Err(format!("{:?}", error)),
    }
}

} // verus!

//! Uri schemes, as the `url` crate parses them.

use vstd::prelude::*;

verus! {

#[verifier::external_type_specification]
#[verifier::external_body]
pub struct ExParseError(url::ParseError);

/// The scheme of `s` when `s` parses as an absolute URL, lower-cased and
/// without the `:`; nothing when it does not parse.
pub uninterp spec fn url_scheme(s: Seq<char>) -> Option<Seq<char>>;

/// Relies on `url::Url::parse`, which fails exactly when no absolute URL can
/// be parsed from the text, and on `Url::scheme` for the scheme of the result.
#[verifier::external_body]
pub(crate) fn parse_scheme(s: &String) -> (r: Result<String, url::ParseError>)
    ensures
        r matches Ok(x) ==> url_scheme(s@) == Some(x@),
        r is Err ==> url_scheme(s@) is None,
{
    match url::Url::parse(s) {
        Ok(u) => Ok(u.scheme().to_string()),
        Err(e) => Err(e),
    }
}

} // verus!

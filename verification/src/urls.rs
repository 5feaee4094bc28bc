//! Joining link paths onto the deployment's base URL.

use vstd::prelude::*;

verus! {

/// What `url::Url::join` returns, serialized, for a given base URL and
/// reference string: RFC 3986 reference resolution, a function of the two
/// strings alone.
pub uninterp spec fn url_join(base: Seq<char>, reference: Seq<char>) -> Seq<char>;

/// Whether parsing the base and joining `reference` onto it succeeds: also
/// a function of the two strings alone.
pub uninterp spec fn url_join_ok(base: Seq<char>, reference: Seq<char>) -> bool;

/// Relies on `url::Url::parse` and `url::Url::join`: parses the base, then
/// resolves `reference` against it; `None` exactly when the base does not
/// parse as an absolute URL, or cannot be a base, or the reference does not
/// parse against it. `to_string` serializes the resolved URL.
#[verifier::external_body]
pub fn join_url(base: &str, reference: &str) -> (r: Option<String>)
    ensures
        r is Some <==> url_join_ok(base@, reference@),
        r matches Some(u) ==> u@ == url_join(base@, reference@),
{
    match url::Url::parse(base) {
        Ok(b) => match b.join(reference) {
            Ok(u) => Some(u.to_string()),
            Err(_) => None,
        },
        Err(_) => None,
    }
}

} // verus!

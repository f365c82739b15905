//! The trusted boundary to the `url` crate: joining a possibly-relative
//! reference onto an absolute base URL.

use vstd::prelude::*;

verus! {

/// Whether parsing `base` as an absolute URL and joining `relative` onto it
/// succeeds, per the `url` crate's resolution rules.
pub uninterp spec fn url_join_ok(base: Seq<char>, relative: Seq<char>) -> bool;

/// The absolute URL that joining `relative` onto `base` produces, when it
/// succeeds.
pub uninterp spec fn url_joined(base: Seq<char>, relative: Seq<char>) -> Seq<char>;

/// Relies on `url::Url::parse` and `url::Url::join` (rendered back to text
/// through `Url`'s `Display`): both are deterministic in the two strings
/// alone, succeed together exactly when `base` parses as an absolute URL and
/// the join is representable, and then produce the standard joined URL.
#[verifier::external_body]
pub(crate) fn join_url(base: &str, relative: &str) -> (r: Option<String>)
    ensures
        r is Some <==> url_join_ok(base@, relative@),
        r matches Some(s) ==> s@ == url_joined(base@, relative@),
{
    match url::Url::parse(base) {
        Ok(b) => match b.join(relative) {
            Ok(u) => Some(u.to_string()),
            Err(_) => None,
        },
        Err(_) => None,
    }
}

} // verus!

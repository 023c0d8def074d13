//! The credential extractor: the bearer token of an authorization header.

use vstd::prelude::*;
use crate::text::{starts_with, str_view, trim, trimmed};

verus! {

/// The scheme prefix of a bearer credential: the word and one space.
pub open spec fn scheme_prefix() -> Seq<char> {
    seq!['B', 'e', 'a', 'r', 'e', 'r', ' ']
}

/// The bearer token of an authorization header: for a header that begins
/// with the scheme prefix, what follows the prefix without its surrounding
/// white space; nothing for a header that is missing or begins otherwise.
pub open spec fn bearer_credential(header: Option<Seq<char>>) -> Option<Seq<char>> {
    match header {
        Some(h) => if scheme_prefix().is_prefix_of(h) {
            Some(trimmed(h.skip(scheme_prefix().len() as int)))
        } else {
            None
        },
        None => None,
    }
}

/// Pulls the bearer token out of the value of the authorization header, if
/// the request has one. Absence is not an error: the caller decides.
pub fn extract_bearer<'a>(header: Option<&'a str>) -> (credential: Option<&'a str>)
    ensures
        str_view(credential) == bearer_credential(str_view(header)),
{
    match header {
        Some(h) => {
            proof {
                reveal_strlit("Bearer ");
                assert("Bearer "@ =~= scheme_prefix());
            }
            if starts_with(h, "Bearer ") {
                let len: usize = h.unicode_len();
                let rest: &str = h.substring_char(7, len);
                Some(trim(rest))
            } else {
                None
            }
        },
        None => None,
    }
}

} // verus!

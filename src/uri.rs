//! The URI grammar that path and query strings must satisfy, as judged by
//! `fluent_uri`.
use vstd::prelude::*;

verus! {

/// Whether `fluent_uri` accepts a string as a properly encoded URI path.
pub uninterp spec fn is_uri_path(s: Seq<char>) -> bool;

/// Whether `fluent_uri` accepts a string as a properly encoded URI query.
pub uninterp spec fn is_uri_query(s: Seq<char>) -> bool;

/// Relies on `fluent_uri::encoding::EStr::<Path>::new`, which returns `Some`
/// exactly when every byte of the string is allowed in a URI path or is part
/// of a well-formed percent-escape; the verdict depends on the string alone.
#[verifier::external_body]
pub(crate) fn path_is_encoded(s: &str) -> (r: bool)
    ensures
        r == is_uri_path(s@),
{
    fluent_uri::encoding::EStr::<fluent_uri::encoding::encoder::Path>::new(s).is_some()
}

/// Relies on `fluent_uri::encoding::EStr::<Query>::new`, which returns `Some`
/// exactly when every byte of the string is allowed in a URI query or is part
/// of a well-formed percent-escape; the verdict depends on the string alone.
#[verifier::external_body]
pub(crate) fn query_is_encoded(s: &str) -> (r: bool)
    ensures
        r == is_uri_query(s@),
{
    fluent_uri::encoding::EStr::<fluent_uri::encoding::encoder::Query>::new(s).is_some()
}

} // verus!

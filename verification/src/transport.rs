//! The types of the HTTP transport that pass through the relay unopened.

use vstd::prelude::*;

verus! {

/// `hyper::Error`, the transport's account of what went wrong.
#[verifier::external_type_specification]
#[verifier::external_body]
pub struct ExHyperError(hyper::Error);

/// `hyper::error::UriError`, the transport's account of why a URI did not
/// parse.
#[verifier::external_type_specification]
#[verifier::external_body]
pub struct ExUriError(hyper::error::UriError);

} // verus!

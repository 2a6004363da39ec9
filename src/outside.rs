//! Declarations and wrappers for the outside crates that the error
//! conversions rely on.

use vstd::prelude::*;

verus! {

/// The multiplexer's connection error, carried through opaquely.
#[verifier::external_type_specification]
#[verifier::external_body]
pub struct ExYamuxConnectionError(yamux::ConnectionError);

/// tokio's timeout error, carried through opaquely.
#[verifier::external_type_specification]
#[verifier::external_body]
pub struct ExElapsed(tokio::time::error::Elapsed);

/// Relies on the `Display` impl of `yamux::ConnectionError`: every variant
/// writes a non-empty description.
#[verifier::external_body]
pub(crate) fn yamux_error_text(err: &yamux::ConnectionError) -> (r: String)
    ensures
        r@.len() > 0,
{
    err.to_string()
}

} // verus!

//! The shared HTTP client that handlers receive.

use vstd::prelude::*;

verus! {

/// Relies on reqwest's `Client` type: the shared, concurrently usable HTTP
/// client that dispatch hands to every handler. The library itself never
/// calls any of its methods; it only passes a reference through, so the type
/// is declared opaquely and nothing is assumed about its values.
#[verifier::external_type_specification]
#[verifier::external_body]
pub struct ExClient(reqwest::Client);

} // verus!

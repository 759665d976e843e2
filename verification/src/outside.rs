//! Types of other crates that appear in this library's signatures.

use vstd::prelude::*;

verus! {

/// `reqwest::Error`: a failure of the HTTP transport. Nothing is known of what
/// it holds.
#[verifier::external_type_specification]
#[verifier::external_body]
pub struct ExTransportError(reqwest::Error);

/// `serde_json::Value`: any JSON value. Nothing is known of what it holds.
#[verifier::external_type_specification]
#[verifier::external_body]
pub struct ExJsonValue(serde_json::Value);

} // verus!

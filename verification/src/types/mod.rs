//! The records exchanged with the gateway.

pub mod requests;
pub mod responses;

use vstd::prelude::*;

verus! {

/// `serde_json::Value`: a JSON value, carried as it is.
#[verifier::external_type_specification]
#[verifier::external_body]
pub struct ExJsonValue(serde_json::Value);

/// `chrono::NaiveDateTime`: a date and time without a zone, carried as it is.
#[verifier::external_type_specification]
#[verifier::external_body]
pub struct ExNaiveDateTime(chrono::NaiveDateTime);

/// `serde_json::Value`'s derived `Clone`: the copy is the same JSON value.
pub assume_specification[ <serde_json::Value as Clone>::clone ](v: &serde_json::Value) -> (r:
    serde_json::Value)
    ensures
        r == *v,
;

/// `serde_json::Value`'s `Default`. Nothing is claimed of the value.
pub assume_specification[ <serde_json::Value as Default>::default ]() -> (r: serde_json::Value);

} // verus!

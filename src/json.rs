//! Free-form JSON values, carried through the library unchanged.

use vstd::prelude::*;

verus! {

/// `serde_json::Value`, a JSON document of any shape: carried through
/// unchanged, nothing is read from it.
#[verifier::external_type_specification]
#[verifier::external_body]
pub struct ExJsonValue(serde_json::Value);

} // verus!

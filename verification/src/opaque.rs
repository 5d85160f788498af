//! Outside types that the library carries through without reading them.

use vstd::prelude::*;

verus! {

/// `uuid::Uuid`: the identifier of a query or a conversation.
#[verifier::external_type_specification]
#[verifier::external_body]
pub struct ExUuid(uuid::Uuid);

/// `serde_json::Value`: the result payload of a handler.
#[verifier::external_type_specification]
#[verifier::external_body]
pub struct ExValue(serde_json::Value);

/// `Clone::clone` of `serde_json::Value`, which the crate derives: the copy
/// is the same JSON value as the one it was made from.
pub assume_specification[ <serde_json::Value as Clone>::clone ](
    value: &serde_json::Value,
) -> (copy: serde_json::Value)
    ensures
        copy == *value,
;

} // verus!

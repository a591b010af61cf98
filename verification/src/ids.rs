use vstd::prelude::*;

verus! {

/// Identifiers of members, tasks and other resources are `uuid::Uuid` values,
/// which the library carries and copies but never inspects.
#[verifier::external_type_specification]
#[verifier::external_body]
pub struct ExUuid(uuid::Uuid);

} // verus!

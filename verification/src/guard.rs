//! The guard that stands before a handler which needs a permission.

use vstd::prelude::*;
use vstd::string::*;

use crate::claims::{insufficient_permissions, permits, Claims};
use crate::error_response_dto::ErrorResponseDto;
use crate::permission_set::PermissionSet;

verus! {

/// Lets a request with `claims` pass where they grant `permission`, and
/// otherwise refuses it with status 403 and the description
/// `Requires <permission>`. A handler calls this before it does anything
/// else.
pub fn authorize(claims: &Claims, permission: &str) -> (outcome: Result<(), ErrorResponseDto>)
    ensures
        outcome is Ok <==> permits(claims@, set![permission@]),
        outcome matches Err(response) ==> response@ == insufficient_permissions(seq![permission@]),
{
    let mut required = PermissionSet::new();
    required.insert(String::from_str(permission));
    assert(required.names() =~= seq![permission@]);
    assert(required@ =~= set![permission@]);
    claims.authorize(&required)
}

} // verus!

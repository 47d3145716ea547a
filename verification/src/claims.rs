//! What a verified token grants, and whether that covers what is required.

use vstd::prelude::*;
use vstd::string::*;

use crate::error_code::ErrorCode;
use crate::error_response_dto::{ErrorResponseDto, ErrorResponseView};
use crate::permission_set::{joined, PermissionSet};

verus! {

/// The status of a request that is authenticated but not allowed.
pub const FORBIDDEN: u16 = 403;

/// The payload of a verified token: the permissions it grants, if it names
/// any.
#[derive(Debug, Clone)]
pub struct Claims {
    permissions: Option<PermissionSet>,
}

impl View for Claims {
    type V = Option<Set<Seq<char>>>;

    /// The granted permissions, or `None` where the token has no permissions
    /// claim.
    closed spec fn view(&self) -> Option<Set<Seq<char>>> {
        match self.permissions {
            Some(set) => Some(set@),
            None => None,
        }
    }
}

/// Whether a token that grants `granted` may do what needs `required`: it
/// must have a permissions claim, and the claim must hold every required
/// permission. A token without the claim is allowed nothing, not even where
/// nothing is required.
pub open spec fn permits(granted: Option<Set<Seq<char>>>, required: Set<Seq<char>>) -> bool {
    match granted {
        Some(permissions) => required.subset_of(permissions),
        None => false,
    }
}

/// The report for a token that lacks a required permission. It lists the
/// required permissions, separated by commas.
pub open spec fn insufficient_permissions(required: Seq<Seq<char>>) -> ErrorResponseView {
    ErrorResponseView {
        error_code: ErrorCode::InsufficientPermissions,
        error_description: Some("Requires "@ + joined(required, ","@)),
        message: "Permission denied"@,
        status_code: FORBIDDEN,
    }
}

impl Claims {
    /// The claims of a token with the given permissions claim.
    pub fn new(permissions: Option<PermissionSet>) -> (claims: Claims)
        ensures
            claims@ == match permissions {
                Some(set) => Some(set@),
                None => None,
            },
    {
        Claims { permissions }
    }

    /// The permissions claim of the token.
    pub fn permissions(&self) -> (permissions: Option<&PermissionSet>)
        ensures
            self@ == match permissions {
                Some(set) => Some(set@),
                None => None,
            },
    {
        self.permissions.as_ref()
    }

    /// Whether the token grants every permission of `required_permissions`.
    pub fn validate_permissions(&self, required_permissions: &PermissionSet) -> (allowed: bool)
        ensures
            allowed == permits(self@, required_permissions@),
    {
        match &self.permissions {
            Some(permissions) => permissions.is_superset(required_permissions),
            None => false,
        }
    }

    /// Lets the request pass where the token grants every required permission,
    /// and otherwise refuses it with status 403 and the list of what is
    /// required.
    pub fn authorize(&self, required_permissions: &PermissionSet) -> (outcome: Result<
        (),
        ErrorResponseDto,
    >)
        ensures
            outcome is Ok <==> permits(self@, required_permissions@),
            outcome matches Err(response) ==> response@ == insufficient_permissions(
                required_permissions.names(),
            ),
    {
        if !self.validate_permissions(required_permissions) {
            let lead = String::from_str("Requires ");
            let listed = required_permissions.join(",");
            Err(
                ErrorResponseDto {
                    error_code: ErrorCode::InsufficientPermissions,
                    error_description: Some(lead.concat(listed.as_str())),
                    message: String::from_str("Permission denied"),
                    status_code: FORBIDDEN,
                },
            )
        } else {
            Ok(())
        }
    }
}

/// A token with a permissions claim is allowed exactly what its permissions
/// cover.
pub proof fn lemma_permits_iff_subset(granted: Set<Seq<char>>, required: Set<Seq<char>>)
    ensures
        permits(Some(granted), required) <==> required.subset_of(granted),
{
}

/// A token without a permissions claim is allowed nothing.
pub proof fn lemma_absent_claim_permits_nothing(required: Set<Seq<char>>)
    ensures
        !permits(None, required),
{
}

/// Permissions beyond the required ones change nothing: what a token is
/// allowed, a token that grants more is allowed too.
pub proof fn lemma_more_permissions_permit_more(
    granted: Set<Seq<char>>,
    more: Set<Seq<char>>,
    required: Set<Seq<char>>,
)
    requires
        granted.subset_of(more),
        permits(Some(granted), required),
    ensures
        permits(Some(more), required),
{
}

/// The report of a refusal has status 403 and the code
/// `InsufficientPermissions`, which no failed authentication has.
pub proof fn lemma_refusal_is_forbidden(required: Seq<Seq<char>>)
    ensures
        insufficient_permissions(required).status_code == 403,
        insufficient_permissions(required).error_code == ErrorCode::InsufficientPermissions,
{
}

} // verus!

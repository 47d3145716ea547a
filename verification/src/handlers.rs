//! What the three message endpoints answer.

use vstd::prelude::*;
use vstd::string::*;

use crate::claims::{insufficient_permissions, permits, Claims};
use crate::error_response_dto::ErrorResponseDto;
use crate::guard::authorize;
use crate::message_dto::{MessageDto, MessageView};
use crate::message_permissions::MessagePermissions;

verus! {

/// The message with the given text, under the names of this service.
pub open spec fn message_with(text: Seq<char>) -> MessageView {
    MessageView {
        api: "api_actix-web_rust_hello-world"@,
        branch: "basic-role-based-access-control"@,
        text,
    }
}

/// The message for administrators.
pub open spec fn admin_message() -> MessageView {
    message_with(
        "The secured API requires a valid access token and the read:admin-messages permission to share this admin message."@,
    )
}

/// The message for every authenticated caller.
pub open spec fn protected_message() -> MessageView {
    message_with("The secured API requires a valid access token to share this protected message."@)
}

/// The message for everybody.
pub open spec fn public_message() -> MessageView {
    message_with("The secured API doesn't require an access token to share this public message."@)
}

fn message(text: &str) -> (message: MessageDto)
    ensures
        message@ == message_with(text@),
{
    MessageDto {
        api: String::from_str("api_actix-web_rust_hello-world"),
        branch: String::from_str("basic-role-based-access-control"),
        text: String::from_str(text),
    }
}

/// Answers `GET /api/messages/admin`: the message for administrators where
/// the claims grant `read:admin_messages`, and a refusal with status 403
/// where they do not.
pub fn admin(claims: Claims) -> (answer: Result<MessageDto, ErrorResponseDto>)
    ensures
        answer is Ok <==> permits(claims@, set![MessagePermissions::ReadAdminMessages.name()]),
        answer matches Ok(message) ==> message@ == admin_message(),
        answer matches Err(response) ==> response@ == insufficient_permissions(
            seq![MessagePermissions::ReadAdminMessages.name()],
        ),
{
    let permission = MessagePermissions::ReadAdminMessages.to_string();
    match authorize(&claims, permission.as_str()) {
        Ok(()) => Ok(
            message(
                "The secured API requires a valid access token and the read:admin-messages permission to share this admin message.",
            ),
        ),
        Err(response) => Err(response),
    }
}

/// Answers `GET /api/messages/protected`: the same message for every caller
/// whose token passed, whatever it grants.
pub fn protected(_claims: Claims) -> (answer: MessageDto)
    ensures
        answer@ == protected_message(),
{
    message("The secured API requires a valid access token to share this protected message.")
}

/// Answers `GET /api/messages/public`: the same message at every call. The
/// function takes nothing, so no token and no claim can change its answer.
pub fn public() -> (answer: MessageDto)
    ensures
        answer@ == public_message(),
{
    message("The secured API doesn't require an access token to share this public message.")
}

} // verus!

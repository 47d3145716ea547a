//! The permissions that the message endpoints know.

use vstd::prelude::*;
use vstd::string::*;

verus! {

/// A permission that an endpoint can require.
#[derive(Debug, Clone, Copy, PartialEq, Eq, Hash, Structural)]
pub enum MessagePermissions {
    /// The permission to read the message for administrators.
    ReadAdminMessages,
}

impl MessagePermissions {
    /// The name under which the permission appears in a token.
    pub open spec fn name(self) -> Seq<char> {
        match self {
            MessagePermissions::ReadAdminMessages => "read:admin_messages"@,
        }
    }

    /// Writes the permission out by its name.
    pub fn to_string(&self) -> (text: String)
        ensures
            text@ == self.name(),
    {
        match self {
            MessagePermissions::ReadAdminMessages => String::from_str("read:admin_messages"),
        }
    }
}

impl MessagePermissions {
    /// Reads a permission from its name. Only the exact name of a permission
    /// is the name of a permission.
    pub fn from_name(name: &str) -> (permission: Option<MessagePermissions>)
        ensures
            match permission {
                Some(permission) => permission.name() == name@,
                None => forall|permission: MessagePermissions| #[trigger]
                    permission.name() != name@,
            },
    {
        let text = name.to_owned();
        if text == String::from_str("read:admin_messages") {
            Some(MessagePermissions::ReadAdminMessages)
        } else {
            None
        }
    }
}

} // verus!

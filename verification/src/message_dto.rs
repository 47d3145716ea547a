//! The body of a successful answer.

use vstd::prelude::*;

verus! {

/// A message of the service, with the names under which it was built.
#[derive(Debug, Clone, PartialEq, Eq)]
pub struct MessageDto {
    pub api: String,
    pub branch: String,
    pub text: String,
}

/// A message as mathematical text.
pub struct MessageView {
    pub api: Seq<char>,
    pub branch: Seq<char>,
    pub text: Seq<char>,
}

impl View for MessageDto {
    type V = MessageView;

    open spec fn view(&self) -> MessageView {
        MessageView { api: self.api@, branch: self.branch@, text: self.text@ }
    }
}

/// The status of every answer that carries a message.
pub const OK: u16 = 200;

impl MessageDto {
    /// The status with which the message is sent.
    pub fn status_code(&self) -> (status: u16)
        ensures
            status == OK,
    {
        OK
    }
}

} // verus!

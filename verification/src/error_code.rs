//! The codes by which a failed request is classified.

use vstd::prelude::*;
use vstd::string::*;

verus! {

/// Classification of a failure, as reported to the caller.
#[derive(Debug, Clone, Copy, PartialEq, Eq, Hash, Structural)]
pub enum ErrorCode {
    OidcError,
    InsufficientPermissions,
    InvalidToken,
    InternalServerError,
    NotFound,
}

impl ErrorCode {
    /// The name under which the code is written out.
    pub open spec fn name(self) -> Seq<char> {
        match self {
            ErrorCode::OidcError => "OidcError"@,
            ErrorCode::InsufficientPermissions => "InsufficientPermissions"@,
            ErrorCode::InvalidToken => "InvalidToken"@,
            ErrorCode::InternalServerError => "InternalServerError"@,
            ErrorCode::NotFound => "NotFound"@,
        }
    }

    /// Writes the code out by its name.
    pub fn to_string(&self) -> (text: String)
        ensures
            text@ == self.name(),
    {
        match self {
            ErrorCode::OidcError => String::from_str("OidcError"),
            ErrorCode::InsufficientPermissions => String::from_str("InsufficientPermissions"),
            ErrorCode::InvalidToken => String::from_str("InvalidToken"),
            ErrorCode::InternalServerError => String::from_str("InternalServerError"),
            ErrorCode::NotFound => String::from_str("NotFound"),
        }
    }
}

impl ErrorCode {
    /// Reads a code from its name. Only the exact name of a code is the name
    /// of a code.
    pub fn from_name(name: &str) -> (code: Option<ErrorCode>)
        ensures
            match code {
                Some(code) => code.name() == name@,
                None => forall|code: ErrorCode| #[trigger] code.name() != name@,
            },
    {
        let text = name.to_owned();
        if text == String::from_str("OidcError") {
            Some(ErrorCode::OidcError)
        } else if text == String::from_str("InsufficientPermissions") {
            Some(ErrorCode::InsufficientPermissions)
        } else if text == String::from_str("InvalidToken") {
            Some(ErrorCode::InvalidToken)
        } else if text == String::from_str("InternalServerError") {
            Some(ErrorCode::InternalServerError)
        } else if text == String::from_str("NotFound") {
            Some(ErrorCode::NotFound)
        } else {
            None
        }
    }
}

/// No two codes have one name, so that a name which is read gives back the
/// code that was written.
pub proof fn lemma_error_code_names_differ(first: ErrorCode, second: ErrorCode)
    requires
        first.name() == second.name(),
    ensures
        first == second,
{
    reveal_strlit("OidcError");
    reveal_strlit("InsufficientPermissions");
    reveal_strlit("InvalidToken");
    reveal_strlit("InternalServerError");
    reveal_strlit("NotFound");
    assert("OidcError"@.len() == 9);
    assert("InsufficientPermissions"@.len() == 23);
    assert("InvalidToken"@.len() == 12);
    assert("InternalServerError"@.len() == 19);
    assert("NotFound"@.len() == 8);
    assert(first.name().len() == second.name().len());
}

} // verus!

//! What can go wrong on the bus, and the text a peer is told about it.
use vstd::prelude::*;
use vstd::string::StringExecFns;

verus! {

#[derive(Debug, Clone, Copy, PartialEq, Eq, Structural)]
pub enum GamerError {
    /// A handler is already bound to this code.
    DuplicateEventCode(usize),
    /// No handler is bound to this code.
    UnknownEventCode(usize),
    /// The frame is not a JSON object.
    MalformedFrame,
    /// The frame has no `code` member.
    MissingCode,
    /// The `code` member is neither an unsigned integer nor its decimal text.
    InvalidCode,
    /// The frame has no `data` member.
    MissingData,
}

impl GamerError {
    pub open spec fn text(self) -> Seq<char> {
        match self {
            GamerError::DuplicateEventCode(_) => "duplicate event code"@,
            GamerError::UnknownEventCode(_) => "unknown event code"@,
            GamerError::MalformedFrame => "invalid message"@,
            GamerError::MissingCode => "invalid message code"@,
            GamerError::InvalidCode => "invalid message code"@,
            GamerError::MissingData => "invalid message data"@,
        }
    }

    /// The diagnostic text sent back to a peer whose frame failed.
    pub fn message(&self) -> (r: String)
        ensures
            r@ == self.text(),
    {
        match self {
            GamerError::DuplicateEventCode(_) => String::from_str("duplicate event code"),
            GamerError::UnknownEventCode(_) => String::from_str("unknown event code"),
            GamerError::MalformedFrame => String::from_str("invalid message"),
            GamerError::MissingCode => String::from_str("invalid message code"),
            GamerError::InvalidCode => String::from_str("invalid message code"),
            GamerError::MissingData => String::from_str("invalid message data"),
        }
    }
}

} // verus!

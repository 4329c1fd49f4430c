//! The reasons for which a forward call is abandoned.

use vstd::prelude::*;

verus! {

/// Why a call was abandoned. Every one of them aborts the whole call.
#[derive(Clone, Copy, Debug, PartialEq, Eq, Structural)]
pub enum ForwardError {
    /// The message is shorter than its fixed header.
    MalformedMessage,
    /// The hook data does not name a recipient under the encoding in force.
    InvalidRecipientEncoding,
    /// The balance gained differs from the amount the message attests.
    AmountMismatch,
    /// The host refused the grant, or the transmitter's own authorization check failed.
    AuthorizationDenied,
    /// The ledger refused the final transfer.
    TransferFailed,
}

impl ForwardError {
    /// The text that goes with this error.
    pub open spec fn text(self) -> Seq<char> {
        match self {
            ForwardError::MalformedMessage => "message too short"@,
            ForwardError::InvalidRecipientEncoding => "invalid recipient encoding"@,
            ForwardError::AmountMismatch => "amount mismatch"@,
            ForwardError::AuthorizationDenied => "authorization denied"@,
            ForwardError::TransferFailed => "transfer failed"@,
        }
    }

    /// A short description, for reports and panics.
    pub fn describe(&self) -> (s: &'static str)
        ensures
            s@ == self.text(),
    {
        match self {
            ForwardError::MalformedMessage => "message too short",
            ForwardError::InvalidRecipientEncoding => "invalid recipient encoding",
            ForwardError::AmountMismatch => "amount mismatch",
            ForwardError::AuthorizationDenied => "authorization denied",
            ForwardError::TransferFailed => "transfer failed",
        }
    }
}

} // verus!

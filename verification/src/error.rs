//! The ways in which a ledger operation is refused.

use vstd::prelude::*;

verus! {

/// Why an operation was refused. A refused operation changes nothing.
#[derive(Clone, Copy, Debug, PartialEq, Eq, Structural)]
pub enum LedgerError {
    /// The token is neither the base nor the reserve side of a registered pair.
    UnregisteredToken,
    /// The clock reading lies before the record's last update.
    ClockRegression,
    /// A withdrawal asks for more than principal plus accrued interest.
    InsufficientBalance,
    /// An accrual or a balance does not fit in 128 bits.
    ArithmeticOverflow,
}

impl LedgerError {
    /// The text that stands for each kind of refusal.
    pub open spec fn spec_message(self) -> Seq<char> {
        match self {
            LedgerError::UnregisteredToken => "This contract is not registered to this saving protocol."@,
            LedgerError::ClockRegression => "The clock reading precedes the last update."@,
            LedgerError::InsufficientBalance => "The amount exceed current balance."@,
            LedgerError::ArithmeticOverflow => "The balance exceeds the representable range."@,
        }
    }

    /// A human-readable line for the refusal, fit for aborting an invocation with.
    pub fn message(&self) -> (text: &'static str)
        ensures
            text@ == self.spec_message(),
    {
        match self {
            LedgerError::UnregisteredToken => "This contract is not registered to this saving protocol.",
            LedgerError::ClockRegression => "The clock reading precedes the last update.",
            LedgerError::InsufficientBalance => "The amount exceed current balance.",
            LedgerError::ArithmeticOverflow => "The balance exceeds the representable range.",
        }
    }
}

} // verus!

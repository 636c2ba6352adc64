//! The calls to token contracts that settle a deposit or a withdrawal.
//!
//! The ledger does not make these calls. An operation commits its change to
//! the ledger first and then hands the calls to its caller, who dispatches
//! them and never reports back: a call that fails later on leaves the ledger
//! as the operation wrote it. Nor does the ledger know what the token
//! contracts hold: that they can pay the interest it grants is taken on trust.

use vstd::prelude::*;
use crate::account_map::AccountId;
use crate::accrual::Balance;

verus! {

/// Gas handed to a settlement call that transfers tokens.
pub const GAS_FOR_FT_TRANSFER: u64 = 30_000_000_000_000;

/// Gas handed to a settlement call that credits the reserve side of a deposit.
pub const GAS_FOR_FT_REGISTER_TRANSFER: u64 = 50_000_000_000_000;

/// The deposit attached to every settlement call.
pub const SETTLEMENT_DEPOSIT: Balance = 1;

/// What a settlement call is for.
#[derive(Clone, Copy, Debug, PartialEq, Eq, Structural)]
pub enum SettlementKind {
    /// Credits the depositor on the reserve side with the deposit and its interest.
    ReserveCredit,
    /// Pays the interest that a withdrawal leaves over.
    Reward,
    /// Pays out the withdrawn amount.
    Withdrawal,
}

impl SettlementKind {
    /// The memo that goes with a call of this kind, as characters.
    pub open spec fn spec_memo(self) -> Option<Seq<char>> {
        match self {
            SettlementKind::ReserveCredit => None,
            SettlementKind::Reward => Some("Reward transfer"@),
            SettlementKind::Withdrawal => Some("WNear withdraw"@),
        }
    }

    /// The gas that goes with a call of this kind.
    pub open spec fn spec_gas(self) -> u64 {
        match self {
            SettlementKind::ReserveCredit => GAS_FOR_FT_REGISTER_TRANSFER,
            SettlementKind::Reward => GAS_FOR_FT_TRANSFER,
            SettlementKind::Withdrawal => GAS_FOR_FT_TRANSFER,
        }
    }

    /// The memo that goes with a call of this kind; a reserve credit has none.
    pub fn memo(&self) -> (memo: Option<&'static str>)
        ensures
            memo is Some == self.spec_memo() is Some,
            memo matches Some(text) ==> Some(text@) == self.spec_memo(),
    {
        match self {
            SettlementKind::ReserveCredit => None,
            SettlementKind::Reward => Some("Reward transfer"),
            SettlementKind::Withdrawal => Some("WNear withdraw"),
        }
    }

    /// The gas that goes with a call of this kind.
    pub fn gas(&self) -> (gas: u64)
        ensures
            gas == self.spec_gas(),
    {
        match self {
            SettlementKind::ReserveCredit => GAS_FOR_FT_REGISTER_TRANSFER,
            SettlementKind::Reward => GAS_FOR_FT_TRANSFER,
            SettlementKind::Withdrawal => GAS_FOR_FT_TRANSFER,
        }
    }
}

/// One call to a token contract: move `amount` to `receiver_id`.
#[derive(Clone, Debug, PartialEq, Eq)]
pub struct Settlement {
    pub kind: SettlementKind,
    /// The token contract that is called.
    pub token_id: AccountId,
    /// The account that receives the amount.
    pub receiver_id: AccountId,
    pub amount: Balance,
}

/// A `Settlement` with its identifiers as sequences of characters.
pub struct SettlementView {
    pub kind: SettlementKind,
    pub token_id: Seq<char>,
    pub receiver_id: Seq<char>,
    pub amount: Balance,
}

impl View for Settlement {
    type V = SettlementView;

    open spec fn view(&self) -> SettlementView {
        SettlementView {
            kind: self.kind,
            token_id: self.token_id@,
            receiver_id: self.receiver_id@,
            amount: self.amount,
        }
    }
}

/// The views of a list of settlement calls, in order.
pub open spec fn settlement_views(calls: Seq<Settlement>) -> Seq<SettlementView> {
    calls.map_values(|call: Settlement| call@)
}

} // verus!

//! The boundary to the ledger that holds the tokens.
//!
//! The escrow never moves funds itself. It says which transfer has to happen
//! ([`TransferRequest`]), the caller has the ledger carry it out exactly once,
//! and hands the ledger's answer back ([`TransferOutcome`]).

use vstd::prelude::*;
use crate::account::AccountHandle;

verus! {

/// Why the ledger refused a transfer.
#[derive(Clone, Copy, Debug, PartialEq, Eq, Structural)]
pub enum TransferError {
    /// The source does not hold the amount asked for.
    InsufficientFunds,
    /// The authority named in the request does not control the source.
    WrongAuthority,
    /// Source and destination hold different kinds of token.
    MintMismatch,
    /// Any other refusal.
    Rejected,
}

/// What the ledger answered to one transfer.
pub type TransferOutcome = Result<(), TransferError>;

/// One movement of funds that the ledger is asked to make.
#[derive(Clone, Copy, Debug, PartialEq, Eq)]
pub struct TransferRequest {
    pub source: AccountHandle,
    pub destination: AccountHandle,
    pub authority: AccountHandle,
    pub amount: u64,
}

/// Balances per account, as the ledger keeps them.
pub type Balances = Map<AccountHandle, int>;

/// Balance of `account` in `balances`; an account the ledger has never seen
/// holds nothing.
pub open spec fn balance_of(balances: Balances, account: AccountHandle) -> int {
    if balances.dom().contains(account) {
        balances[account]
    } else {
        0
    }
}

/// Whether the source holds enough for `request`.
pub open spec fn funded(balances: Balances, request: TransferRequest) -> bool {
    balance_of(balances, request.source) >= request.amount
}

/// Whether `outcome` is an answer that a ledger can give to `request` without
/// paying out more than the source holds.
pub open spec fn honours_balance(
    balances: Balances,
    request: TransferRequest,
    outcome: TransferOutcome,
) -> bool {
    outcome is Ok ==> funded(balances, request)
}

/// The balances after the ledger has carried out `request`.
pub open spec fn carried_out(balances: Balances, request: TransferRequest) -> Balances {
    let debited = balances.insert(
        request.source,
        balance_of(balances, request.source) - request.amount,
    );
    debited.insert(request.destination, balance_of(debited, request.destination) + request.amount)
}

/// The balances after the ledger has answered `outcome` to `request`: a
/// refused transfer moves nothing.
pub open spec fn balances_after(
    balances: Balances,
    request: TransferRequest,
    outcome: TransferOutcome,
) -> Balances {
    if outcome is Ok {
        carried_out(balances, request)
    } else {
        balances
    }
}

/// A transfer between two different accounts takes exactly its amount from
/// the source, adds exactly its amount to the destination and touches no
/// other account.
pub proof fn lemma_transfer_moves_exact_amount(
    balances: Balances,
    request: TransferRequest,
    other: AccountHandle,
)
    requires
        request.source != request.destination,
    ensures
        balance_of(carried_out(balances, request), request.source) == balance_of(
            balances,
            request.source,
        ) - request.amount,
        balance_of(carried_out(balances, request), request.destination) == balance_of(
            balances,
            request.destination,
        ) + request.amount,
        other != request.source && other != request.destination ==> balance_of(
            carried_out(balances, request),
            other,
        ) == balance_of(balances, other),
{
}

} // verus!

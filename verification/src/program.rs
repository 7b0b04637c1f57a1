//! The entry points of the spin-wheel program over a catalogue of fifteen
//! fixed slots.
//!
//! Each entry point takes the accounts it works on as plain values. The two
//! entry points that move tokens follow the two-step protocol of
//! [`crate::escrow`]: `*_request` names the transfer, the entry point itself
//! takes the ledger's answer.

use vstd::prelude::*;
use crate::account::AccountHandle;
use crate::catalogue::{RewardCatalogue, RewardEntry, RewardKind};
use crate::clock::unix_timestamp;
use crate::error::EscrowError;
use crate::escrow::SpinItemList;
use crate::ledger::{TransferOutcome, TransferRequest};
use crate::selector::{draw_value, select, selected};
use crate::session::{Settlement, SpinState};
use crate::vault::EscrowVault;

verus! {

/// Number of slots of the program's catalogue.
pub const SPIN_ITEM_COUNT: usize = 15;

/// Accounts of `initialize`.
#[derive(Debug)]
pub struct Initialize {
    /// Who pays for and signs the creation of the state.
    pub initializer: AccountHandle,
    /// The escrow state to set up.
    pub state: SpinItemList,
}

/// Accounts of `set_item`.
#[derive(Debug)]
pub struct SetItem {
    /// The operator: signs the deposit and becomes the vault's authority.
    pub owner: AccountHandle,
    /// The escrow state.
    pub state: SpinItemList,
    /// The vault that takes the deposit.
    pub token_vault: AccountHandle,
    /// The account the reward is funded from.
    pub reward_account: AccountHandle,
}

/// Accounts of `spin_wheel`.
#[derive(Debug)]
pub struct SpinWheel {
    /// The escrow state.
    pub state: SpinItemList,
}

/// Accounts of `transfer_rewards`.
#[derive(Debug)]
pub struct TransferRewards {
    /// The signer that authorises the payout.
    pub owner: AccountHandle,
    /// The escrow state.
    pub state: SpinItemList,
    /// The vault that pays, with the authority the ledger has on record for
    /// it.
    pub token_vault: EscrowVault,
    /// The account that receives the reward.
    pub dest_account: AccountHandle,
}

impl SetItem {
    /// The vault as this instruction sees it: the operator is its authority.
    pub open spec fn vault(&self) -> EscrowVault {
        EscrowVault { account: self.token_vault, authority: self.owner }
    }

    /// The entry that `set_item` writes for `ratio` and `amount`.
    pub open spec fn item(&self, ratio: u8, amount: u64) -> RewardEntry {
        RewardEntry {
            ratio,
            kind: RewardKind::FungibleToken { amount },
            source_reference: self.reward_account,
        }
    }
}

/// Sets the state up: fifteen vacant slots, an idle session, and `pool_bump`
/// as the stored seed.
pub fn initialize(ctx: &mut Initialize, pool_bump: u8) -> (result: Result<(), EscrowError>)
    ensures
        result is Ok,
        final(ctx).initializer == old(ctx).initializer,
        final(ctx).state.catalogue@ == Seq::new(
            SPIN_ITEM_COUNT as nat,
            |i: int| RewardEntry::vacant(),
        ),
        final(ctx).state.catalogue.limit() == Some(SPIN_ITEM_COUNT),
        final(ctx).state.session == SpinState::new_spec(pool_bump),
{
    ctx.state = SpinItemList {
        catalogue: RewardCatalogue::with_slots(SPIN_ITEM_COUNT),
        session: SpinState::new(pool_bump),
    };
    Ok(())
}

/// First step of `set_item`: the deposit of `amount` tokens from the reward
/// account into the vault, signed by the owner; `IndexOutOfRange` where the
/// catalogue has no slot `item_index`.
pub fn set_item_request(ctx: &SetItem, item_index: u8, ratio: u8, amount: u64) -> (result: Result<
    TransferRequest,
    EscrowError,
>)
    ensures
        result == ctx.state.replacement(
            item_index as usize,
            ctx.item(ratio, amount),
            ctx.vault(),
            ctx.owner,
        ),
{
    let vault = EscrowVault::new(ctx.token_vault, ctx.owner);
    let entry = RewardEntry::fungible(ratio, amount, ctx.reward_account);
    ctx.state.update_request(item_index as usize, &entry, &vault, ctx.owner)
}

/// Writes `ratio` and `amount` into slot `item_index`, given the ledger's
/// answer to the deposit that `set_item_request` named. The slot is written
/// only where the deposit went through.
pub fn set_item(
    ctx: &mut SetItem,
    token_vault_bump: u8,
    item_index: u8,
    ratio: u8,
    amount: u64,
    deposit: TransferOutcome,
) -> (result: Result<(), EscrowError>)
    ensures
        final(ctx).owner == old(ctx).owner,
        final(ctx).token_vault == old(ctx).token_vault,
        final(ctx).reward_account == old(ctx).reward_account,
        final(ctx).state.session == old(ctx).state.session,
        final(ctx).state.catalogue.limit() == old(ctx).state.catalogue.limit(),
        item_index >= old(ctx).state.catalogue@.len() ==> result == Err::<(), EscrowError>(
            EscrowError::IndexOutOfRange,
        ),
        item_index < old(ctx).state.catalogue@.len() ==> (match deposit {
            Ok(_) => result is Ok,
            Err(cause) => result == Err::<(), EscrowError>(EscrowError::TransferFailed(cause)),
        }),
        result is Ok ==> final(ctx).state.catalogue@ == old(ctx).state.catalogue@.update(
            item_index as int,
            old(ctx).item(ratio, amount),
        ),
        result is Err ==> final(ctx).state.catalogue@ == old(ctx).state.catalogue@,
{
    let entry = RewardEntry::fungible(ratio, amount, ctx.reward_account);
    match ctx.state.update(item_index as usize, entry, deposit) {
        Ok(_) => Ok(()),
        Err(error) => Err(error),
    }
}

/// The slot that the timestamp `unix_timestamp` draws.
pub fn spin_result_at(state: &SpinItemList, unix_timestamp: i64) -> (index: usize)
    ensures
        index == selected(state.catalogue@, draw_value(unix_timestamp as int)),
{
    select(unix_timestamp, &state.catalogue)
}

/// Draws a slot from the current time: reads the clock and selects by its
/// timestamp. Fails with `ClockUnavailable` where the clock cannot be read.
pub fn get_spinresult(state: &SpinItemList) -> (result: Result<usize, EscrowError>)
    ensures
        match result {
            Ok(index) => exists|now: i64|
                index == #[trigger] selected(state.catalogue@, draw_value(now as int)),
            Err(error) => error == EscrowError::ClockUnavailable,
        },
{
    match unix_timestamp() {
        Some(now) => Ok(spin_result_at(state, now)),
        None => Err(EscrowError::ClockUnavailable),
    }
}

/// Spins the wheel at the current time and records the slot drawn. No tokens
/// move. Where the clock cannot be read nothing is recorded.
pub fn spin_wheel(ctx: &mut SpinWheel) -> (result: Result<(), EscrowError>)
    ensures
        final(ctx).state.catalogue@ == old(ctx).state.catalogue@,
        final(ctx).state.catalogue.limit() == old(ctx).state.catalogue.limit(),
        match result {
            Ok(_) => exists|now: i64|
                final(ctx).state.session == old(ctx).state.session.after_spin(
                    #[trigger] selected(old(ctx).state.catalogue@, draw_value(now as int)) as usize,
                ),
            Err(error) => error == EscrowError::ClockUnavailable && final(ctx).state.session == old(
                ctx,
            ).state.session,
        },
{
    match get_spinresult(&ctx.state) {
        Ok(index) => {
            ctx.state.session.record(index);
            Ok(())
        },
        Err(error) => Err(error),
    }
}

/// First step of `transfer_rewards`: the release of the tokens of slot
/// `spin_index` from the vault to the destination, signed by the owner.
pub fn transfer_rewards_request(ctx: &TransferRewards, spin_index: u8) -> (result: Result<
    TransferRequest,
    EscrowError,
>)
    ensures
        result == ctx.state.settlement(
            (Settlement::CallerSupplied { index: spin_index as usize }),
            ctx.token_vault,
            ctx.dest_account,
            ctx.owner,
        ),
{
    ctx.state.settle_request(
        Settlement::CallerSupplied { index: spin_index as usize },
        &ctx.token_vault,
        ctx.dest_account,
        ctx.owner,
    )
}

/// Pays out slot `spin_index`, given the ledger's answer to the release that
/// `transfer_rewards_request` named. The index is the caller's: the recorded
/// draw is neither read nor consumed.
pub fn transfer_rewards(ctx: &mut TransferRewards, spin_index: u8, release: TransferOutcome) -> (result:
    Result<(), EscrowError>)
    ensures
        final(ctx).owner == old(ctx).owner,
        final(ctx).token_vault == old(ctx).token_vault,
        final(ctx).dest_account == old(ctx).dest_account,
        final(ctx).state.session == old(ctx).state.session,
        final(ctx).state.catalogue@ == old(ctx).state.catalogue@,
        final(ctx).state.catalogue.limit() == old(ctx).state.catalogue.limit(),
        match old(ctx).state.settlement(
            (Settlement::CallerSupplied { index: spin_index as usize }),
            old(ctx).token_vault,
            old(ctx).dest_account,
            old(ctx).owner,
        ) {
            Err(error) => result == Err::<(), EscrowError>(error),
            Ok(request) => result == crate::vault::confirmed(release),
        },
{
    let vault = ctx.token_vault;
    let destination = ctx.dest_account;
    let owner = ctx.owner;
    match ctx.state.settle(
        Settlement::CallerSupplied { index: spin_index as usize },
        &vault,
        destination,
        owner,
        release,
    ) {
        Ok(_) => Ok(()),
        Err(error) => Err(error),
    }
}

} // verus!

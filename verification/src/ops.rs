use vstd::prelude::*;

use crate::error::VoltError;
use crate::fees::spec_fee;
use crate::fees::spec_net;
use crate::fees::spec_split_fits;
use crate::fees::spec_total;
use crate::fees::split;
use crate::state::LotteryState;
use crate::state::Pubkey;
use crate::state::UserTickets;
use crate::state::spec_saturating_add;

verus! {

/// The parties an initialization names: the administrator who authorizes
/// it, the treasury that will collect platform fees, and the prize vault.
/// The host runtime creates the configuration and vault accounts at
/// deterministically derived addresses and enforces that this happens at
/// most once per deployment.
pub struct Initialize {
    pub admin: Pubkey,
    pub treasury: Pubkey,
    pub vault: Pubkey,
}

/// The parties a purchase names: the purchaser who authorizes and pays,
/// the treasury that collects the fee, and the vault that collects the
/// prize share.
pub struct BuyTickets {
    pub user: Pubkey,
    pub treasury: Pubkey,
    pub vault: Pubkey,
}

/// One debit the external transfer collaborator must perform: move
/// `lamports` from `from` to `to`, whole or not at all.
#[derive(Clone, Copy, Debug, PartialEq, Eq)]
pub struct LamportTransfer {
    pub from: Pubkey,
    pub to: Pubkey,
    pub lamports: u64,
}

/// The two debits of one purchase. The collaborator must apply both
/// atomically with the record update: a fee debited without the prize
/// share, or the reverse, must never be observed.
#[derive(Clone, Copy, Debug, PartialEq, Eq)]
pub struct TransferPlan {
    pub fee: LamportTransfer,
    pub prize: LamportTransfer,
}

/// Builds the one-time configuration record of a deployment. Fails with
/// `BadBps` exactly when the winner and rollover shares do not sum to
/// 10,000 basis points; otherwise returns the record with every field as
/// given, the epoch at zero, and the draw open. The other rates, the
/// platform fee included, are stored unvalidated.
pub fn initialize(
    accounts: &Initialize,
    ticket_price_lamports: u64,
    platform_fee_bps: u16,
    rake_bps: u16,
    withdrawal_fee_bps: u16,
    winner_bps: u16,
    rollover_bps: u16,
) -> (r: Result<LotteryState, VoltError>)
    ensures
        r is Ok <==> winner_bps + rollover_bps == 10_000,
        r is Err ==> r->Err_0 == VoltError::BadBps,
        r matches Ok(state) ==> state == (LotteryState {
            admin: accounts.admin,
            treasury: accounts.treasury,
            vault: accounts.vault,
            ticket_price_lamports,
            platform_fee_bps,
            rake_bps,
            withdrawal_fee_bps,
            winner_bps,
            rollover_bps,
            epoch: 0,
            draw_open: true,
        }),
        r matches Ok(state) ==> state.wf(),
{
    if winner_bps as u32 + rollover_bps as u32 != 10_000 {
        return Err(VoltError::BadBps);
    }
    Ok(
        LotteryState {
            admin: accounts.admin,
            treasury: accounts.treasury,
            vault: accounts.vault,
            ticket_price_lamports,
            platform_fee_bps,
            rake_bps,
            withdrawal_fee_bps,
            winner_bps,
            rollover_bps,
            epoch: 0,
            draw_open: true,
        },
    )
}

/// Validates a purchase and, on success, updates the participant's ticket
/// record for the configuration's current epoch and returns the two
/// transfers the host must perform atomically. The checks run in order and
/// the first failure wins: a zero count is `BadAmount`, a closed draw is
/// `DrawClosed`, and a total or fee outside the unsigned 64-bit range is
/// `Overflow`. On every error the record is left untouched. On success the
/// record carries the purchaser and the current epoch, and its count grows
/// by `count`, saturating at `u64::MAX`.
pub fn buy_tickets(
    accounts: &BuyTickets,
    state: &LotteryState,
    user_tickets: &mut UserTickets,
    count: u64,
) -> (r: Result<TransferPlan, VoltError>)
    ensures
        r is Ok <==> count > 0 && state.draw_open && spec_split_fits(
            state.ticket_price_lamports,
            count,
            state.platform_fee_bps,
        ),
        (r is Err && r->Err_0 == VoltError::BadAmount) <==> count == 0,
        (r is Err && r->Err_0 == VoltError::DrawClosed) <==> count > 0 && !state.draw_open,
        (r is Err && r->Err_0 == VoltError::Overflow) <==> count > 0 && state.draw_open
            && !spec_split_fits(state.ticket_price_lamports, count, state.platform_fee_bps),
        r is Err ==> *final(user_tickets) == *old(user_tickets),
        r matches Ok(plan) ==> {
            &&& plan.fee.from == accounts.user
            &&& plan.fee.to == accounts.treasury
            &&& plan.fee.lamports == spec_fee(
                spec_total(state.ticket_price_lamports, count),
                state.platform_fee_bps,
            )
            &&& plan.prize.from == accounts.user
            &&& plan.prize.to == accounts.vault
            &&& plan.prize.lamports == spec_net(
                spec_total(state.ticket_price_lamports, count),
                state.platform_fee_bps,
            )
            &&& final(user_tickets).user == accounts.user
            &&& final(user_tickets).epoch == state.epoch
            &&& final(user_tickets).count == spec_saturating_add(old(user_tickets).count, count)
        },
{
    if count == 0 {
        return Err(VoltError::BadAmount);
    }
    if !state.draw_open {
        return Err(VoltError::DrawClosed);
    }
    let (fee, net) = match split(state.ticket_price_lamports, count, state.platform_fee_bps) {
        Ok(pair) => pair,
        Err(e) => {
            return Err(e);
        },
    };
    user_tickets.user = accounts.user;
    user_tickets.epoch = state.epoch;
    user_tickets.count = user_tickets.count.saturating_add(count);
    Ok(
        TransferPlan {
            fee: LamportTransfer { from: accounts.user, to: accounts.treasury, lamports: fee },
            prize: LamportTransfer { from: accounts.user, to: accounts.vault, lamports: net },
        },
    )
}

} // verus!

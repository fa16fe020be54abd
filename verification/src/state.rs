use vstd::prelude::*;

verus! {

/// A 32-byte account identity. The host runtime derives and checks real
/// addresses; the core only copies identities between records and transfer
/// requests, so it holds them as plain bytes.
#[derive(Clone, Copy, Debug, PartialEq, Eq)]
pub struct Pubkey(pub [u8; 32]);

/// The global configuration record, one per deployment. Created once by
/// `initialize`; `buy_tickets` only reads it. The fields `rake_bps` and
/// `withdrawal_fee_bps` are stored configuration that no operation of this
/// core consumes yet.
#[derive(Clone, Copy, Debug, PartialEq, Eq)]
pub struct LotteryState {
    pub admin: Pubkey,
    pub treasury: Pubkey,
    pub vault: Pubkey,
    pub ticket_price_lamports: u64,
    pub platform_fee_bps: u16,
    pub rake_bps: u16,
    pub withdrawal_fee_bps: u16,
    pub winner_bps: u16,
    pub rollover_bps: u16,
    pub epoch: u64,
    pub draw_open: bool,
}

impl LotteryState {
    /// Payload size in bytes of the stored record: three identities, the
    /// ticket price, six basis-point fields, the epoch, and the draw gate.
    pub const SIZE: usize = 32 + 32 + 32 + 8 + 2 + 2 + 2 + 2 + 2 + 8 + 1;

    /// Well-formedness established at creation: the winner and rollover
    /// shares partition the prize exactly.
    pub open spec fn wf(self) -> bool {
        self.winner_bps + self.rollover_bps == 10_000
    }
}

/// One participant's ticket holdings in one epoch. Created lazily by the
/// host on the participant's first purchase of the epoch (all fields zero),
/// then only ever grown, saturating at `u64::MAX`.
#[derive(Clone, Copy, Debug, PartialEq, Eq)]
pub struct UserTickets {
    pub user: Pubkey,
    pub epoch: u64,
    pub count: u64,
}

impl UserTickets {
    /// Payload size in bytes of the stored record.
    pub const SIZE: usize = 32 + 8 + 8;
}

/// Ticket counts grow by saturating addition: once a record reaches
/// `u64::MAX` further purchases are absorbed without error.
pub open spec fn spec_saturating_add(a: u64, b: u64) -> u64 {
    if a + b > u64::MAX {
        u64::MAX
    } else {
        (a + b) as u64
    }
}

/// Purchases in one epoch accumulate: growing a record by `a` tickets and
/// then by `b` is the same as growing it by `a + b` at once, clamped to the
/// maximum representable count.
pub proof fn lemma_purchases_accumulate(start: u64, a: u64, b: u64)
    ensures
        spec_saturating_add(spec_saturating_add(start, a), b) == (if start + a + b > u64::MAX {
            u64::MAX
        } else {
            (start + a + b) as u64
        }),
{
}

/// A record created fresh for a new epoch starts from the new purchase
/// alone: nothing carries over from an earlier epoch's record.
pub proof fn lemma_fresh_record_counts_new_purchase_only(count: u64)
    ensures
        spec_saturating_add(0, count) == count,
{
}

} // verus!

use vstd::prelude::*;

use crate::error::VoltError;
use vstd::arithmetic::div_mod::lemma_div_is_ordered;
use vstd::arithmetic::div_mod::lemma_div_multiples_vanish;
use vstd::arithmetic::mul::lemma_mul_inequality;
use vstd::arithmetic::mul::lemma_mul_is_commutative;
use vstd::arithmetic::mul::lemma_mul_nonnegative;
use vstd::arithmetic::mul::lemma_mul_upper_bound;

verus! {

/// The exact lamport total of a purchase: unit price times ticket count.
pub open spec fn spec_total(ticket_price_lamports: u64, count: u64) -> int {
    ticket_price_lamports * count
}

/// The platform's cut: `platform_fee_bps` basis points of the total,
/// rounded down. The division remainder is never corrected; it silently
/// accrues to the net.
pub open spec fn spec_fee(total: int, platform_fee_bps: u16) -> int {
    total * platform_fee_bps / 10_000
}

/// What reaches the prize vault once the platform fee is taken.
pub open spec fn spec_net(total: int, platform_fee_bps: u16) -> int {
    total - spec_fee(total, platform_fee_bps)
}

/// When a purchase can be priced: the total fits the unsigned 64-bit
/// range, and the fee does not exceed the total (which a configured rate
/// above 10,000 basis points can make happen).
pub open spec fn spec_split_fits(ticket_price_lamports: u64, count: u64, platform_fee_bps: u16) -> bool {
    &&& spec_total(ticket_price_lamports, count) <= u64::MAX
    &&& spec_fee(spec_total(ticket_price_lamports, count), platform_fee_bps) <= spec_total(
        ticket_price_lamports,
        count,
    )
}

/// The fee is between zero and the total whenever the rate is at most
/// 10,000 basis points, i.e. one hundred percent.
pub proof fn lemma_fee_le_total(total: int, platform_fee_bps: u16)
    requires
        0 <= total,
        platform_fee_bps <= 10_000,
    ensures
        0 <= spec_fee(total, platform_fee_bps) <= total,
{
    lemma_mul_nonnegative(total, platform_fee_bps as int);
    lemma_div_is_ordered(0, total * platform_fee_bps, 10_000);
    lemma_mul_is_commutative(total, platform_fee_bps as int);
    lemma_mul_inequality(platform_fee_bps as int, 10_000, total);
    lemma_div_is_ordered(total * platform_fee_bps, 10_000 * total, 10_000);
    lemma_div_multiples_vanish(total, 10_000);
}

/// No lamport is created or lost by a split: for every positive count and
/// any rate of at most one hundred percent, the fee and the net reassemble
/// the exact total, and the net is never negative.
pub proof fn lemma_split_exact(ticket_price_lamports: u64, count: u64, platform_fee_bps: u16)
    requires
        count > 0,
        platform_fee_bps <= 10_000,
    ensures
        spec_fee(spec_total(ticket_price_lamports, count), platform_fee_bps) + spec_net(
            spec_total(ticket_price_lamports, count),
            platform_fee_bps,
        ) == spec_total(ticket_price_lamports, count),
        0 <= spec_net(spec_total(ticket_price_lamports, count), platform_fee_bps),
        spec_total(ticket_price_lamports, count) <= u64::MAX ==> spec_split_fits(
            ticket_price_lamports,
            count,
            platform_fee_bps,
        ),
{
    lemma_mul_nonnegative(ticket_price_lamports as int, count as int);
    lemma_fee_le_total(spec_total(ticket_price_lamports, count), platform_fee_bps);
}

/// Splits a purchase of `count` tickets at `ticket_price_lamports` each
/// into the platform fee and the prize-vault net. Fails with `Overflow`
/// when the total leaves the unsigned 64-bit range or the configured rate
/// makes the fee exceed the total; otherwise returns `(fee, net)` exactly.
pub fn split(ticket_price_lamports: u64, count: u64, platform_fee_bps: u16) -> (r: Result<
    (u64, u64),
    VoltError,
>)
    requires
        count > 0,
    ensures
        r is Ok <==> spec_split_fits(ticket_price_lamports, count, platform_fee_bps),
        r matches Ok(pair) ==> pair.0 == spec_fee(
            spec_total(ticket_price_lamports, count),
            platform_fee_bps,
        ) && pair.1 == spec_net(spec_total(ticket_price_lamports, count), platform_fee_bps),
        r is Err ==> r->Err_0 == VoltError::Overflow,
{
    let total: u64 = match ticket_price_lamports.checked_mul(count) {
        Some(t) => t,
        None => {
            return Err(VoltError::Overflow);
        },
    };
    proof {
        lemma_mul_nonnegative(total as int, platform_fee_bps as int);
        lemma_mul_upper_bound(total as int, u64::MAX as int, platform_fee_bps as int, u16::MAX as int);
    }
    let fee_wide: u128 = (total as u128) * (platform_fee_bps as u128) / 10_000;
    if fee_wide > total as u128 {
        return Err(VoltError::Overflow);
    }
    let fee: u64 = fee_wide as u64;
    let net: u64 = total - fee;
    Ok((fee, net))
}

} // verus!

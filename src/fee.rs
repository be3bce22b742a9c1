use vstd::prelude::*;

verus! {

/// Basis points in one whole.
pub const BPS_DENOMINATOR: u64 = 10000;

/// The platform owner's share of a settlement of `amount`:
/// `floor(amount * cut_bps / 10000)`, capped at `u64::MAX` (reached only by
/// cuts above 100%).
pub open spec fn owner_cut_of(amount: u64, cut_bps: u16) -> int {
    let q = (amount as int * cut_bps as int) / BPS_DENOMINATOR as int;
    if q > u64::MAX as int { u64::MAX as int } else { q }
}

/// What the seller receives of a settlement of `amount`: the rest, never below zero.
pub open spec fn seller_proceeds_of(amount: u64, cut_bps: u16) -> int {
    let c = owner_cut_of(amount, cut_bps);
    if c > amount as int { 0 } else { amount as int - c }
}

/// Splits `amount` into the owner's cut and the seller's proceeds, exactly and
/// without overflow.
pub fn compute_split(amount: u64, cut_bps: u16) -> (r: (u64, u64))
    ensures
        r.0 as int == owner_cut_of(amount, cut_bps),
        r.1 as int == seller_proceeds_of(amount, cut_bps),
{
    assert(amount as int * cut_bps as int <= u64::MAX as int * 65535) by (nonlinear_arith)
        requires
            amount <= u64::MAX,
            cut_bps <= 65535,
            amount >= 0,
            cut_bps >= 0,
    ;
    let product: u128 = (amount as u128) * (cut_bps as u128);
    let quotient: u128 = product / (BPS_DENOMINATOR as u128);
    let owner_cut: u64 = if quotient > u64::MAX as u128 {
        u64::MAX
    } else {
        quotient as u64
    };
    let proceeds: u64 = amount.saturating_sub(owner_cut);
    (owner_cut, proceeds)
}

/// For a cut below 100%, the owner's share is exactly
/// `floor(amount * cut_bps / 10000)` and the two shares add up to the amount.
pub proof fn lemma_split_exact(amount: u64, cut_bps: u16)
    requires
        cut_bps < 10000,
    ensures
        owner_cut_of(amount, cut_bps) == (amount as int * cut_bps as int) / 10000,
        owner_cut_of(amount, cut_bps) + seller_proceeds_of(amount, cut_bps) == amount,
{
    let p = amount as int * cut_bps as int;
    assert(p <= amount as int * 10000) by (nonlinear_arith)
        requires
            p == amount as int * cut_bps as int,
            cut_bps < 10000,
            amount >= 0,
    ;
    assert(p / 10000 <= amount as int) by (nonlinear_arith)
        requires
            0 <= p <= amount as int * 10000,
    ;
}

} // verus!

//! The factory: a registry that creates presales and counts them.

use anchor_lang::prelude::Pubkey;
use vstd::prelude::*;

use crate::error::ErrorCode;

verus! {

/// One hundred per cent, in basis points. A platform fee rate never exceeds it.
pub const BASIS_POINTS: u64 = 10_000;

/// The registry of one deployer.
#[derive(Clone, Copy, Debug, PartialEq, Eq)]
pub struct Factory {
    /// The identity allowed to create presales under this factory.
    pub owner: Pubkey,
    /// How many presales this factory has created.
    pub presale_count: u64,
    /// The fee charged on each new presale's hard cap, in basis points.
    pub platform_fee: u64,
}

/// The fee of `rate` basis points on `hard_cap`, rounded down.
pub open spec fn fee_on(hard_cap: u64, rate: u64) -> int {
    hard_cap * rate / 10_000
}

/// A fee at a rate of at most one hundred per cent is at most the amount it
/// is charged on.
pub proof fn lemma_fee_within_cap(hard_cap: u64, rate: u64)
    requires
        rate <= BASIS_POINTS,
    ensures
        0 <= fee_on(hard_cap, rate) <= hard_cap,
{
    assert(0 <= hard_cap * rate <= hard_cap * 10_000) by (nonlinear_arith)
        requires
            rate <= 10_000,
    ;
}

impl Factory {
    /// The fee rate is a valid basis-points rate.
    pub open spec fn wf(&self) -> bool {
        self.platform_fee <= BASIS_POINTS
    }

    /// Tests `wf` at run time.
    pub fn is_well_formed(&self) -> (ok: bool)
        ensures
            ok == self.wf(),
    {
        self.platform_fee <= BASIS_POINTS
    }

    /// The platform fee this factory charges on a presale with the given hard
    /// cap: `hard_cap * platform_fee / 10_000`, rounded down.
    pub fn fee_for(&self, hard_cap: u64) -> (fee: u64)
        requires
            self.wf(),
        ensures
            fee == fee_on(hard_cap, self.platform_fee),
    {
        proof {
            lemma_fee_within_cap(hard_cap, self.platform_fee);
            assert(hard_cap * self.platform_fee <= u64::MAX * 10_000) by (nonlinear_arith)
                requires
                    self.platform_fee <= 10_000,
                    hard_cap <= u64::MAX,
            ;
        }
        let product: u128 = (hard_cap as u128) * (self.platform_fee as u128);
        (product / 10_000) as u64
    }
}

/// The accounts named when a factory is set up.
#[derive(Clone, Copy, Debug, PartialEq, Eq)]
pub struct InitializeFactory {
    /// The deployer, who will own the factory.
    pub owner: Pubkey,
}

/// Sets up the factory of `ctx.owner` with the given fee rate and no presale
/// counted yet. A rate above one hundred per cent is refused with `InvalidFee`.
pub fn initialize_factory(ctx: &InitializeFactory, platform_fee: u64) -> (result: Result<
    Factory,
    ErrorCode,
>)
    ensures
        platform_fee > BASIS_POINTS ==> result == Err::<Factory, ErrorCode>(ErrorCode::InvalidFee),
        platform_fee <= BASIS_POINTS ==> result == Ok::<Factory, ErrorCode>(
            Factory { owner: ctx.owner, presale_count: 0, platform_fee },
        ),
        result matches Ok(factory) ==> factory.wf(),
{
    if platform_fee > BASIS_POINTS {
        return Err(ErrorCode::InvalidFee);
    }
    Ok(Factory { owner: ctx.owner, presale_count: 0, platform_fee })
}

} // verus!

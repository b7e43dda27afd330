//! Creating a presale under a factory.

use anchor_lang::prelude::Pubkey;
use vstd::prelude::*;

use crate::error::ErrorCode;
use crate::factory::{fee_on, Factory};
use crate::identity::same_key;
use crate::ledger::Buyer;
use crate::presale::Presale;

verus! {

/// The accounts named when a presale is created.
#[derive(Clone, Copy, Debug, PartialEq, Eq)]
pub struct CreatePresale {
    /// The factory the presale is created under.
    pub factory: Factory,
    /// The address at which the new presale will be kept.
    pub presale: Pubkey,
    /// The caller.
    pub owner: Pubkey,
    /// The vault that will hold the tokens on sale.
    pub token_vault: Pubkey,
}

/// A request to mint tokens into a vault.
#[derive(Clone, Copy, Debug, PartialEq, Eq)]
pub struct MintRequest {
    /// The token to mint. Its mint must exist.
    pub token: Pubkey,
    /// The identity that must hold the mint authority over the token.
    pub authority: Pubkey,
    /// The vault that receives the tokens.
    pub vault: Pubkey,
    /// How many tokens to mint.
    pub amount: u64,
}

/// The notice that a presale has been created.
#[derive(Clone, Copy, Debug, PartialEq, Eq)]
pub struct PresaleCreated {
    /// The address of the new presale.
    pub presale: Pubkey,
    /// The campaign's owner.
    pub owner: Pubkey,
    /// When the sale opens.
    pub start_sale: i64,
    /// When the sale closes.
    pub end_sale: i64,
}

/// What a successful creation hands back.
#[derive(Clone, Debug, PartialEq, Eq)]
pub struct Creation {
    /// The new presale.
    pub presale: Presale,
    /// The mint that backs it: the whole hard cap, minted into the vault
    /// before the sale opens, so that the presale can never sell more tokens
    /// than exist.
    pub mint: MintRequest,
    /// The notice to send out.
    pub notice: PresaleCreated,
}

/// Why a presale cannot have these terms: the soft cap is above the hard cap,
/// the sale does not open before it closes, or the minimum contribution is
/// above the maximum. The first of these that applies decides.
pub open spec fn terms_refusal(
    soft_cap: u64,
    hard_cap: u64,
    min_buy: u64,
    max_buy: u64,
    start_sale: i64,
    end_sale: i64,
) -> Option<ErrorCode> {
    if soft_cap > hard_cap {
        Some(ErrorCode::InvalidCap)
    } else if start_sale >= end_sale {
        Some(ErrorCode::InvalidTime)
    } else if min_buy > max_buy {
        Some(ErrorCode::InvalidMinMax)
    } else {
        None
    }
}

/// Checks the terms of a presale against each other.
pub fn check_terms(
    soft_cap: u64,
    hard_cap: u64,
    min_buy: u64,
    max_buy: u64,
    start_sale: i64,
    end_sale: i64,
) -> (result: Result<(), ErrorCode>)
    ensures
        result == match terms_refusal(soft_cap, hard_cap, min_buy, max_buy, start_sale, end_sale) {
            Some(error) => Err::<(), ErrorCode>(error),
            None => Ok::<(), ErrorCode>(()),
        },
{
    if soft_cap > hard_cap {
        return Err(ErrorCode::InvalidCap);
    }
    if start_sale >= end_sale {
        return Err(ErrorCode::InvalidTime);
    }
    if min_buy > max_buy {
        return Err(ErrorCode::InvalidMinMax);
    }
    Ok(())
}

impl CreatePresale {
    /// Why the creation is refused: the caller is not the factory's owner
    /// (`Unauthorized`), or the terms are refused.
    pub open spec fn refusal(
        &self,
        soft_cap: u64,
        hard_cap: u64,
        min_buy: u64,
        max_buy: u64,
        start_sale: i64,
        end_sale: i64,
    ) -> Option<ErrorCode> {
        if self.owner != self.factory.owner {
            Some(ErrorCode::Unauthorized)
        } else {
            terms_refusal(soft_cap, hard_cap, min_buy, max_buy, start_sale, end_sale)
        }
    }
}

impl Presale {
    /// Nothing has happened to the presale yet: nothing is sold or raised, it
    /// is not finalized, and the whitelist and the ledger are empty.
    pub open spec fn is_fresh(&self) -> bool {
        &&& self.tokens_sold == 0
        &&& self.funds_raised == 0
        &&& !self.is_finalized
        &&& self.participants@ == Seq::<Pubkey>::empty()
        &&& self.buyers@ == Seq::<Buyer>::empty()
    }
}

/// Creates a presale with the given terms under `ctx.factory`.
///
/// Only the factory's owner may do so: any other caller is refused with
/// `Unauthorized`. Terms that contradict each other are refused with
/// `InvalidCap`, `InvalidTime` or `InvalidMinMax`, in that order. A refusal
/// changes nothing.
///
/// Otherwise the new presale carries the terms as given and the platform fee
/// that the factory charges on its hard cap, the factory counts one presale
/// more, and the caller is asked to mint the hard cap into the token vault.
pub fn create_presale(
    ctx: &mut CreatePresale,
    owner: Pubkey,
    token: Pubkey,
    payment_token: Pubkey,
    dex_router: Pubkey,
    presale_rate: u64,
    soft_cap: u64,
    hard_cap: u64,
    min_buy: u64,
    max_buy: u64,
    start_sale: i64,
    end_sale: i64,
    liquidity_percent: u64,
    is_fund: bool,
    is_native: bool,
    is_whitelist: bool,
    is_auto_listing: bool,
    is_vesting: bool,
    first_release_percent: u64,
    vesting_period: u64,
    tokens_release_percent: u64,
    listing_rate: u64,
    demy_address: Pubkey,
    liquidity_time: u64,
    qerralock: Pubkey,
    uniswap_factory: Pubkey,
) -> (result: Result<Creation, ErrorCode>)
    requires
        old(ctx).factory.wf(),
        old(ctx).factory.presale_count < u64::MAX,
    ensures
        final(ctx).factory.wf(),
        final(ctx).factory.owner == old(ctx).factory.owner,
        final(ctx).factory.platform_fee == old(ctx).factory.platform_fee,
        final(ctx).presale == old(ctx).presale,
        final(ctx).owner == old(ctx).owner,
        final(ctx).token_vault == old(ctx).token_vault,
        result is Ok <==> old(ctx).owner == old(ctx).factory.owner && soft_cap <= hard_cap
            && start_sale < end_sale && min_buy <= max_buy,
        match old(ctx).refusal(soft_cap, hard_cap, min_buy, max_buy, start_sale, end_sale) {
            Some(error) => {
                &&& result == Err::<Creation, ErrorCode>(error)
                &&& final(ctx).factory.presale_count == old(ctx).factory.presale_count
            },
            None => {
                &&& final(ctx).factory.presale_count == old(ctx).factory.presale_count + 1
                &&& result matches Ok(created)
                &&& created.presale.wf()
                &&& created.presale.is_fresh()
                &&& created.presale.platform_fee == fee_on(hard_cap, old(ctx).factory.platform_fee)
                &&& created.presale.owner == owner
                &&& created.presale.token == token
                &&& created.presale.payment_token == payment_token
                &&& created.presale.dex_router == dex_router
                &&& created.presale.presale_rate == presale_rate
                &&& created.presale.soft_cap == soft_cap
                &&& created.presale.hard_cap == hard_cap
                &&& created.presale.min_buy == min_buy
                &&& created.presale.max_buy == max_buy
                &&& created.presale.start_sale == start_sale
                &&& created.presale.end_sale == end_sale
                &&& created.presale.liquidity_percent == liquidity_percent
                &&& created.presale.is_fund == is_fund
                &&& created.presale.is_native == is_native
                &&& created.presale.is_whitelist == is_whitelist
                &&& created.presale.is_auto_listing == is_auto_listing
                &&& created.presale.is_vesting == is_vesting
                &&& created.presale.first_release_percent == first_release_percent
                &&& created.presale.vesting_period == vesting_period
                &&& created.presale.tokens_release_percent == tokens_release_percent
                &&& created.presale.listing_rate == listing_rate
                &&& created.presale.demy_address == demy_address
                &&& created.presale.liquidity_time == liquidity_time
                &&& created.presale.qerralock == qerralock
                &&& created.presale.uniswap_factory == uniswap_factory
                &&& created.mint == (MintRequest {
                    token,
                    authority: owner,
                    vault: old(ctx).token_vault,
                    amount: hard_cap,
                })
                &&& created.notice == (PresaleCreated {
                    presale: old(ctx).presale,
                    owner,
                    start_sale,
                    end_sale,
                })
            },
        },
{
    if !same_key(&ctx.owner, &ctx.factory.owner) {
        return Err(ErrorCode::Unauthorized);
    }
    match check_terms(soft_cap, hard_cap, min_buy, max_buy, start_sale, end_sale) {
        Ok(()) => {},
        Err(error) => {
            return Err(error);
        },
    }
    let platform_fee = ctx.factory.fee_for(hard_cap);
    let presale = Presale {
        owner,
        token,
        payment_token,
        dex_router,
        presale_rate,
        soft_cap,
        hard_cap,
        min_buy,
        max_buy,
        start_sale,
        end_sale,
        liquidity_percent,
        is_fund,
        is_native,
        is_whitelist,
        is_auto_listing,
        is_vesting,
        first_release_percent,
        vesting_period,
        tokens_release_percent,
        listing_rate,
        demy_address,
        liquidity_time,
        qerralock,
        uniswap_factory,
        tokens_sold: 0,
        funds_raised: 0,
        is_finalized: false,
        platform_fee,
        participants: Vec::new(),
        buyers: Vec::new(),
    };
    ctx.factory.presale_count = ctx.factory.presale_count + 1;
    let mint = MintRequest { token, authority: owner, vault: ctx.token_vault, amount: hard_cap };
    let notice = PresaleCreated { presale: ctx.presale, owner, start_sale, end_sale };
    Ok(Creation { presale, mint, notice })
}

} // verus!

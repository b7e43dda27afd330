//! A presale: one fund-raising campaign, with its terms, its running totals,
//! its whitelist and its buyers' ledger.

use anchor_lang::prelude::Pubkey;
use vstd::prelude::*;

use crate::error::ErrorCode;
use crate::identity::{has_distinct_keys, holds_key, insert_key, key_set, remove_key, same_key};
use crate::identity::{with_key, without_key};
use crate::laws::step;
use crate::ledger::{distinct_buyers, has_distinct_buyers, ledger_adds_up_to, ledger_total, Buyer};

verus! {

/// How contributions to a presale are paid.
#[derive(Clone, Copy, Debug, PartialEq, Eq, Structural)]
pub enum PaymentMode {
    /// In the chain's native asset.
    Native,
    /// In the presale's payment token.
    Token,
}

/// One campaign. The terms are fixed when it is created; the totals, the
/// whitelist, the ledger and the finalized flag change over its life.
#[derive(Debug, PartialEq, Eq)]
pub struct Presale {
    /// The campaign's owner.
    pub owner: Pubkey,
    /// The token on sale.
    pub token: Pubkey,
    /// The token contributions are paid in, unless the sale is native.
    pub payment_token: Pubkey,
    /// The exchange router the sale will list on.
    pub dex_router: Pubkey,
    /// Payment units per token.
    pub presale_rate: u64,
    /// The least the campaign is meant to raise.
    pub soft_cap: u64,
    /// The most the campaign may raise, and the number of tokens on sale.
    pub hard_cap: u64,
    /// The least a single contribution may be.
    pub min_buy: u64,
    /// The most a single contribution may be.
    pub max_buy: u64,
    /// When the sale opens.
    pub start_sale: i64,
    /// When the sale closes.
    pub end_sale: i64,
    /// The share of the funds that goes to liquidity.
    pub liquidity_percent: u64,
    /// Whether the sale raises for a fund.
    pub is_fund: bool,
    /// Whether contributions are paid in the native asset.
    pub is_native: bool,
    /// Whether only whitelisted identities may contribute.
    pub is_whitelist: bool,
    /// Whether the token is listed automatically after the sale.
    pub is_auto_listing: bool,
    /// Whether bought tokens vest.
    pub is_vesting: bool,
    /// The share of bought tokens released at once.
    pub first_release_percent: u64,
    /// The time between two releases.
    pub vesting_period: u64,
    /// The share of bought tokens released each period.
    pub tokens_release_percent: u64,
    /// Payment units per token at listing.
    pub listing_rate: u64,
    /// The address that unsold tokens go to.
    pub demy_address: Pubkey,
    /// How long liquidity stays locked.
    pub liquidity_time: u64,
    /// The liquidity locker.
    pub qerralock: Pubkey,
    /// The exchange factory the sale will list on.
    pub uniswap_factory: Pubkey,
    /// Tokens sold so far.
    pub tokens_sold: u64,
    /// Funds raised so far.
    pub funds_raised: u64,
    /// Whether the sale has been finalized. A finalized sale takes no more
    /// contributions.
    pub is_finalized: bool,
    /// The platform's fee, fixed at creation.
    pub platform_fee: u64,
    /// The whitelist.
    pub participants: Vec<Pubkey>,
    /// The buyers' ledger.
    pub buyers: Vec<Buyer>,
}

impl Clone for Presale {
    /// A copy with the same terms, totals, flag, whitelist and ledger.
    fn clone(&self) -> (copy: Self)
        ensures
            copy.same_sale(self),
            copy.participants@ == self.participants@,
            self.wf() ==> copy.wf(),
    {
        let participants = self.participants.clone();
        let buyers = self.buyers.clone();
        assert(participants@ =~= self.participants@);
        assert(buyers@ =~= self.buyers@);
        Presale {
            owner: self.owner,
            token: self.token,
            payment_token: self.payment_token,
            dex_router: self.dex_router,
            presale_rate: self.presale_rate,
            soft_cap: self.soft_cap,
            hard_cap: self.hard_cap,
            min_buy: self.min_buy,
            max_buy: self.max_buy,
            start_sale: self.start_sale,
            end_sale: self.end_sale,
            liquidity_percent: self.liquidity_percent,
            is_fund: self.is_fund,
            is_native: self.is_native,
            is_whitelist: self.is_whitelist,
            is_auto_listing: self.is_auto_listing,
            is_vesting: self.is_vesting,
            first_release_percent: self.first_release_percent,
            vesting_period: self.vesting_period,
            tokens_release_percent: self.tokens_release_percent,
            listing_rate: self.listing_rate,
            demy_address: self.demy_address,
            liquidity_time: self.liquidity_time,
            qerralock: self.qerralock,
            uniswap_factory: self.uniswap_factory,
            tokens_sold: self.tokens_sold,
            funds_raised: self.funds_raised,
            is_finalized: self.is_finalized,
            platform_fee: self.platform_fee,
            participants,
            buyers,
        }
    }
}

impl Presale {
    /// The whitelist as a set.
    pub open spec fn whitelist(&self) -> Set<Pubkey> {
        key_set(self.participants@)
    }

    /// The two presales have the same terms: every field that is fixed at
    /// creation is equal.
    pub open spec fn same_terms(&self, other: &Presale) -> bool {
        &&& self.owner == other.owner
        &&& self.token == other.token
        &&& self.payment_token == other.payment_token
        &&& self.dex_router == other.dex_router
        &&& self.presale_rate == other.presale_rate
        &&& self.soft_cap == other.soft_cap
        &&& self.hard_cap == other.hard_cap
        &&& self.min_buy == other.min_buy
        &&& self.max_buy == other.max_buy
        &&& self.start_sale == other.start_sale
        &&& self.end_sale == other.end_sale
        &&& self.liquidity_percent == other.liquidity_percent
        &&& self.is_fund == other.is_fund
        &&& self.is_native == other.is_native
        &&& self.is_whitelist == other.is_whitelist
        &&& self.is_auto_listing == other.is_auto_listing
        &&& self.is_vesting == other.is_vesting
        &&& self.first_release_percent == other.first_release_percent
        &&& self.vesting_period == other.vesting_period
        &&& self.tokens_release_percent == other.tokens_release_percent
        &&& self.listing_rate == other.listing_rate
        &&& self.demy_address == other.demy_address
        &&& self.liquidity_time == other.liquidity_time
        &&& self.qerralock == other.qerralock
        &&& self.uniswap_factory == other.uniswap_factory
        &&& self.platform_fee == other.platform_fee
    }

    /// The two presales have the same terms, totals, finalized flag and
    /// ledger: they differ in the whitelist at most.
    pub open spec fn same_sale(&self, other: &Presale) -> bool {
        &&& self.same_terms(other)
        &&& self.tokens_sold == other.tokens_sold
        &&& self.funds_raised == other.funds_raised
        &&& self.is_finalized == other.is_finalized
        &&& self.buyers@ == other.buyers@
    }

    /// What holds of a presale after every operation: the caps, the window and
    /// the contribution bounds are ordered, neither total exceeds the hard cap,
    /// the whitelist is a set, and the ledger has one entry per buyer and
    /// accounts for exactly the funds raised.
    pub open spec fn wf(&self) -> bool {
        &&& self.soft_cap <= self.hard_cap
        &&& self.start_sale < self.end_sale
        &&& self.min_buy <= self.max_buy
        &&& self.funds_raised <= self.hard_cap
        &&& self.tokens_sold <= self.hard_cap
        &&& self.participants@.no_duplicates()
        &&& distinct_buyers(self.buyers@)
        &&& ledger_total(self.buyers@) == self.funds_raised
    }

    /// Tests `wf` at run time.
    pub fn is_well_formed(&self) -> (ok: bool)
        ensures
            ok == self.wf(),
    {
        self.soft_cap <= self.hard_cap && self.start_sale < self.end_sale && self.min_buy
            <= self.max_buy && self.funds_raised <= self.hard_cap && self.tokens_sold
            <= self.hard_cap && has_distinct_keys(&self.participants) && has_distinct_buyers(
            &self.buyers,
        ) && ledger_adds_up_to(&self.buyers, self.funds_raised)
    }

    /// The payment mode that the terms select.
    pub open spec fn mode(&self) -> PaymentMode {
        if self.is_native {
            PaymentMode::Native
        } else {
            PaymentMode::Token
        }
    }

    /// The payment mode that the terms select.
    pub fn payment_mode(&self) -> (mode: PaymentMode)
        ensures
            mode == self.mode(),
    {
        if self.is_native {
            PaymentMode::Native
        } else {
            PaymentMode::Token
        }
    }

    /// Is `who` on the whitelist?
    pub fn is_participant(&self, who: &Pubkey) -> (listed: bool)
        ensures
            listed == self.whitelist().contains(*who),
    {
        holds_key(&self.participants, who)
    }

    /// Puts `identity` on the whitelist. Only the campaign's owner may do so:
    /// any other caller is refused with `Unauthorized` and nothing changes.
    /// Listing an identity that is listed already changes nothing.
    pub fn add_participant(&mut self, caller: &Pubkey, identity: Pubkey) -> (result: Result<
        (),
        ErrorCode,
    >)
        requires
            old(self).wf(),
        ensures
            final(self).wf(),
            final(self).same_sale(old(self)),
            step(*old(self), *final(self)),
            *caller != old(self).owner ==> result == Err::<(), ErrorCode>(ErrorCode::Unauthorized)
                && final(self).participants@ == old(self).participants@,
            *caller == old(self).owner ==> result == Ok::<(), ErrorCode>(())
                && final(self).participants@ == with_key(old(self).participants@, identity)
                && final(self).whitelist() == old(self).whitelist().insert(identity),
    {
        if !same_key(caller, &self.owner) {
            return Err(ErrorCode::Unauthorized);
        }
        insert_key(&mut self.participants, identity);
        Ok(())
    }

    /// Takes `identity` off the whitelist. Only the campaign's owner may do
    /// so: any other caller is refused with `Unauthorized` and nothing changes.
    /// Removing an identity that is not listed changes nothing.
    pub fn remove_participant(&mut self, caller: &Pubkey, identity: &Pubkey) -> (result: Result<
        (),
        ErrorCode,
    >)
        requires
            old(self).wf(),
        ensures
            final(self).wf(),
            final(self).same_sale(old(self)),
            step(*old(self), *final(self)),
            *caller != old(self).owner ==> result == Err::<(), ErrorCode>(ErrorCode::Unauthorized)
                && final(self).participants@ == old(self).participants@,
            *caller == old(self).owner ==> result == Ok::<(), ErrorCode>(())
                && final(self).participants@ == without_key(old(self).participants@, *identity)
                && final(self).whitelist() == old(self).whitelist().remove(*identity),
    {
        if !same_key(caller, &self.owner) {
            return Err(ErrorCode::Unauthorized);
        }
        remove_key(&mut self.participants, identity);
        Ok(())
    }
}

} // verus!

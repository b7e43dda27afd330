//! The contribution engine: the checks a contribution must pass, the
//! settlement it calls for, and what it does to the presale.

use anchor_lang::prelude::Pubkey;
use vstd::prelude::*;

use crate::error::ErrorCode;
use crate::laws::{accepted, step};
use crate::ledger::{credit, with_contribution};
use crate::presale::{PaymentMode, Presale};

verus! {

/// A movement of the chain's native asset.
#[derive(Clone, Copy, Debug, PartialEq, Eq)]
pub struct NativeTransfer {
    /// The account that pays.
    pub from: Pubkey,
    /// The account that receives.
    pub to: Pubkey,
    /// How much moves.
    pub amount: u64,
}

/// A movement of a fungible token between two token accounts.
#[derive(Clone, Copy, Debug, PartialEq, Eq)]
pub struct TokenTransfer {
    /// The token that moves.
    pub token: Pubkey,
    /// The token account that pays.
    pub from: Pubkey,
    /// The token account that receives.
    pub to: Pubkey,
    /// The identity that authorises the movement.
    pub authority: Pubkey,
    /// How much moves.
    pub amount: u64,
}

/// How a contribution is paid in.
#[derive(Clone, Copy, Debug, PartialEq, Eq)]
pub enum Payment {
    /// In the native asset.
    Native(NativeTransfer),
    /// In the presale's payment token.
    Token(TokenTransfer),
}

/// The two transfers that settle one contribution. Both take effect or
/// neither does.
#[derive(Clone, Copy, Debug, PartialEq, Eq)]
pub struct Settlement {
    /// The buyer pays the presale.
    pub payment: Payment,
    /// The presale delivers the tokens to the buyer.
    pub delivery: TokenTransfer,
}

/// The accounts named in a contribution.
#[derive(Clone, Debug, PartialEq, Eq)]
pub struct BuyTokens {
    /// The presale contributed to.
    pub presale: Presale,
    /// The contributor.
    pub buyer: Pubkey,
    /// The presale's vault for the native asset.
    pub presale_vault: Pubkey,
    /// The presale's vault for the payment token.
    pub presale_payment_vault: Pubkey,
    /// The buyer's account of the payment token.
    pub buyer_payment_account: Pubkey,
    /// The buyer's account of the token on sale.
    pub buyer_token_account: Pubkey,
    /// The presale's vault of the token on sale.
    pub token_vault: Pubkey,
}

impl Presale {
    /// The tokens that `amount` buys: `amount / presale_rate`, rounded down.
    pub open spec fn tokens_for(&self, amount: u64) -> int {
        amount as int / self.presale_rate as int
    }

    /// Why `buyer` may not contribute at time `now`, whatever the amount: the
    /// sale has not opened, has closed, is finalized, or is whitelisted
    /// without `buyer` on the list. The first of these that applies decides.
    pub open spec fn entry_refusal(&self, buyer: Pubkey, now: i64) -> Option<ErrorCode> {
        if now < self.start_sale {
            Some(ErrorCode::PresaleNotStarted)
        } else if now > self.end_sale {
            Some(ErrorCode::PresaleEnded)
        } else if self.is_finalized {
            Some(ErrorCode::PresaleAlreadyFinalized)
        } else if self.is_whitelist && !self.whitelist().contains(buyer) {
            Some(ErrorCode::Unauthorized)
        } else {
            None
        }
    }

    /// Why a contribution of `amount` does not fit: it would take the funds
    /// raised past the hard cap, it is zero or below the minimum, it is above
    /// the maximum, the rate is zero, or the tokens it buys would take the
    /// tokens sold past the hard cap. The first of these that applies decides.
    pub open spec fn amount_refusal(&self, amount: u64) -> Option<ErrorCode> {
        if self.funds_raised + amount > self.hard_cap {
            Some(ErrorCode::FundingCapExceeded)
        } else if amount == 0 || amount < self.min_buy {
            Some(ErrorCode::AmountTooLow)
        } else if amount > self.max_buy {
            Some(ErrorCode::AmountTooHigh)
        } else if self.presale_rate == 0 {
            Some(ErrorCode::InsufficientTokens)
        } else if self.tokens_sold + self.tokens_for(amount) > self.hard_cap {
            Some(ErrorCode::InsufficientTokens)
        } else {
            None
        }
    }

    /// The error that refuses a contribution of `amount` by `buyer` at time
    /// `now`, or `None` if the contribution is accepted.
    pub open spec fn refusal(&self, buyer: Pubkey, amount: u64, now: i64) -> Option<ErrorCode> {
        match self.entry_refusal(buyer, now) {
            Some(error) => Some(error),
            None => self.amount_refusal(amount),
        }
    }

    /// What `quote` answers.
    pub open spec fn quoted(&self, buyer: Pubkey, amount: u64, now: i64) -> Result<
        u64,
        ErrorCode,
    > {
        match self.refusal(buyer, amount, now) {
            Some(error) => Err(error),
            None => Ok(self.tokens_for(amount) as u64),
        }
    }

    /// `self` is `before` after an accepted contribution of `amount` by
    /// `buyer`: the funds raised grow by `amount`, the tokens sold by the
    /// tokens bought, the buyer is credited in the ledger, and nothing else
    /// changes.
    pub open spec fn purchased(&self, before: &Presale, buyer: Pubkey, amount: u64) -> bool {
        &&& self.same_terms(before)
        &&& self.funds_raised == before.funds_raised + amount
        &&& self.tokens_sold == before.tokens_sold + before.tokens_for(amount)
        &&& self.is_finalized == before.is_finalized
        &&& self.participants@ == before.participants@
        &&& self.buyers@ == with_contribution(before.buyers@, buyer, amount)
    }

    /// Checks a contribution of `amount` by `buyer` at time `now` without
    /// making it: the number of tokens it would buy, or the error that refuses
    /// it.
    pub fn quote(&self, buyer: &Pubkey, amount: u64, now: i64) -> (result: Result<u64, ErrorCode>)
        ensures
            result == self.quoted(*buyer, amount, now),
    {
        if now < self.start_sale {
            return Err(ErrorCode::PresaleNotStarted);
        }
        if now > self.end_sale {
            return Err(ErrorCode::PresaleEnded);
        }
        if self.is_finalized {
            return Err(ErrorCode::PresaleAlreadyFinalized);
        }
        if self.is_whitelist && !self.is_participant(buyer) {
            return Err(ErrorCode::Unauthorized);
        }
        match self.funds_raised.checked_add(amount) {
            Some(raised) => {
                if raised > self.hard_cap {
                    return Err(ErrorCode::FundingCapExceeded);
                }
            },
            None => {
                return Err(ErrorCode::FundingCapExceeded);
            },
        }
        if amount == 0 || amount < self.min_buy {
            return Err(ErrorCode::AmountTooLow);
        }
        if amount > self.max_buy {
            return Err(ErrorCode::AmountTooHigh);
        }
        let tokens = match amount.checked_div(self.presale_rate) {
            Some(tokens) => tokens,
            None => {
                return Err(ErrorCode::InsufficientTokens);
            },
        };
        match self.tokens_sold.checked_add(tokens) {
            Some(sold) => {
                if sold > self.hard_cap {
                    return Err(ErrorCode::InsufficientTokens);
                }
            },
            None => {
                return Err(ErrorCode::InsufficientTokens);
            },
        }
        Ok(tokens)
    }
}

impl BuyTokens {
    /// The settlement of a contribution of `amount`. In native mode the buyer
    /// pays the presale's vault in the native asset; in token mode the buyer's
    /// payment account pays the presale's payment vault in the payment token,
    /// on the buyer's authority. Either way the presale's token vault delivers
    /// the tokens bought to the buyer's token account, on the authority of the
    /// campaign's owner.
    pub open spec fn settlement(&self, amount: u64) -> Settlement {
        Settlement {
            payment: match self.presale.mode() {
                PaymentMode::Native => Payment::Native(
                    NativeTransfer { from: self.buyer, to: self.presale_vault, amount },
                ),
                PaymentMode::Token => Payment::Token(
                    TokenTransfer {
                        token: self.presale.payment_token,
                        from: self.buyer_payment_account,
                        to: self.presale_payment_vault,
                        authority: self.buyer,
                        amount,
                    },
                ),
            },
            delivery: TokenTransfer {
                token: self.presale.token,
                from: self.token_vault,
                to: self.buyer_token_account,
                authority: self.presale.owner,
                amount: self.presale.tokens_for(amount) as u64,
            },
        }
    }

    /// The same accounts are named: the two differ in the presale's state at
    /// most.
    pub open spec fn same_accounts(&self, other: &BuyTokens) -> bool {
        &&& self.buyer == other.buyer
        &&& self.presale_vault == other.presale_vault
        &&& self.presale_payment_vault == other.presale_payment_vault
        &&& self.buyer_payment_account == other.buyer_payment_account
        &&& self.buyer_token_account == other.buyer_token_account
        &&& self.token_vault == other.token_vault
    }
}

/// Makes a contribution of `amount` by `ctx.buyer` to `ctx.presale` at time
/// `now`.
///
/// The contribution is checked first. If a check refuses it, the error of the
/// first such check is returned and nothing changes. Otherwise the presale's
/// totals and ledger are brought up to date and the settlement is returned.
/// The caller carries the settlement out, and keeps the updated presale only
/// if both of its transfers took effect.
pub fn buy_tokens(ctx: &mut BuyTokens, amount: u64, now: i64) -> (result: Result<
    Settlement,
    ErrorCode,
>)
    requires
        old(ctx).presale.wf(),
    ensures
        final(ctx).presale.wf(),
        final(ctx).same_accounts(old(ctx)),
        match old(ctx).presale.refusal(old(ctx).buyer, amount, now) {
            Some(error) => {
                &&& result == Err::<Settlement, ErrorCode>(error)
                &&& *final(ctx) == *old(ctx)
            },
            None => {
                &&& result == Ok::<Settlement, ErrorCode>(old(ctx).settlement(amount))
                &&& final(ctx).presale.purchased(&old(ctx).presale, old(ctx).buyer, amount)
            },
        },
        step(old(ctx).presale, final(ctx).presale),
        final(ctx).presale.funds_raised >= old(ctx).presale.funds_raised,
        final(ctx).presale.tokens_sold >= old(ctx).presale.tokens_sold,
        final(ctx).presale.funds_raised <= final(ctx).presale.hard_cap,
        final(ctx).presale.tokens_sold <= final(ctx).presale.hard_cap,
{
    let tokens = match ctx.presale.quote(&ctx.buyer, amount, now) {
        Ok(tokens) => tokens,
        Err(error) => {
            return Err(error);
        },
    };
    let payment = match ctx.presale.payment_mode() {
        PaymentMode::Native => Payment::Native(
            NativeTransfer { from: ctx.buyer, to: ctx.presale_vault, amount },
        ),
        PaymentMode::Token => Payment::Token(
            TokenTransfer {
                token: ctx.presale.payment_token,
                from: ctx.buyer_payment_account,
                to: ctx.presale_payment_vault,
                authority: ctx.buyer,
                amount,
            },
        ),
    };
    let delivery = TokenTransfer {
        token: ctx.presale.token,
        from: ctx.token_vault,
        to: ctx.buyer_token_account,
        authority: ctx.presale.owner,
        amount: tokens,
    };
    ctx.presale.tokens_sold = ctx.presale.tokens_sold + tokens;
    ctx.presale.funds_raised = ctx.presale.funds_raised + amount;
    credit(&mut ctx.presale.buyers, &ctx.buyer, amount);
    assert(accepted(old(ctx).presale, ctx.presale, ctx.buyer, amount, now));
    Ok(Settlement { payment, delivery })
}

} // verus!

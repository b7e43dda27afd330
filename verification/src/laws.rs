//! What holds of a presale over its whole life, whatever is done to it.

use anchor_lang::prelude::Pubkey;
use vstd::prelude::*;

use crate::error::ErrorCode;
use crate::identity::{with_key, without_key};
use crate::ledger::lemma_with_contribution;
use crate::presale::Presale;

verus! {

/// `after` is `before` after a contribution of `amount` by `buyer` at time
/// `now` that was accepted.
pub open spec fn accepted(
    before: Presale,
    after: Presale,
    buyer: Pubkey,
    amount: u64,
    now: i64,
) -> bool {
    &&& before.refusal(buyer, amount, now) is None
    &&& after.purchased(&before, buyer, amount)
}

/// `after` is `before` one step later. A step is an accepted contribution, a
/// change of the whitelist by adding or removing one identity, the
/// finalization of the sale, or an operation that was refused and changed
/// nothing.
pub open spec fn step(before: Presale, after: Presale) -> bool {
    ||| exists|buyer: Pubkey, amount: u64, now: i64| accepted(before, after, buyer, amount, now)
    ||| exists|identity: Pubkey|
        {
            &&& after.same_sale(&before)
            &&& after.participants@ == #[trigger] with_key(before.participants@, identity)
        }
    ||| exists|identity: Pubkey|
        {
            &&& after.same_sale(&before)
            &&& after.participants@ == #[trigger] without_key(before.participants@, identity)
        }
    ||| {
        &&& after.same_terms(&before)
        &&& after.tokens_sold == before.tokens_sold
        &&& after.funds_raised == before.funds_raised
        &&& after.buyers@ == before.buyers@
        &&& after.participants@ == before.participants@
        &&& after.is_finalized
    }
    ||| {
        &&& after.same_sale(&before)
        &&& after.participants@ == before.participants@
    }
}

/// `states` is a possible life of one presale: it begins well formed, and
/// each state follows from the one before by one step.
pub open spec fn lifetime(states: Seq<Presale>) -> bool {
    &&& states.len() > 0
    &&& states[0].wf()
    &&& forall|i: int| 0 <= i < states.len() - 1 ==> step(#[trigger] states[i], states[i + 1])
}

/// A step keeps a presale well formed, takes nothing from either total, and
/// never clears the finalized flag.
pub proof fn lemma_step(before: Presale, after: Presale)
    requires
        before.wf(),
        step(before, after),
    ensures
        after.wf(),
        after.same_terms(&before),
        before.funds_raised <= after.funds_raised,
        before.tokens_sold <= after.tokens_sold,
        before.is_finalized ==> after.is_finalized && after.funds_raised == before.funds_raised
            && after.tokens_sold == before.tokens_sold,
{
    if exists|buyer: Pubkey, amount: u64, now: i64|
accepted(before, after, buyer, amount, now) {
        let (buyer, amount, now) = choose|buyer: Pubkey, amount: u64, now: i64|
accepted(before, after, buyer, amount, now);
        lemma_with_contribution(before.buyers@, buyer, amount);
    } else if exists|identity: Pubkey|
        {
            &&& after.same_sale(&before)
            &&& after.participants@ == #[trigger] with_key(before.participants@, identity)
        } {
        let identity = choose|identity: Pubkey|
            {
                &&& after.same_sale(&before)
                &&& after.participants@ == #[trigger] with_key(before.participants@, identity)
            };
        lemma_with_key_distinct(before.participants@, identity);
    } else if exists|identity: Pubkey|
        {
            &&& after.same_sale(&before)
            &&& after.participants@ == #[trigger] without_key(before.participants@, identity)
        } {
        let identity = choose|identity: Pubkey|
            {
                &&& after.same_sale(&before)
                &&& after.participants@ == #[trigger] without_key(before.participants@, identity)
            };
        lemma_without_key_distinct(before.participants@, identity);
    }
}

/// Adding a key to a list without duplicates leaves it without duplicates.
pub proof fn lemma_with_key_distinct(keys: Seq<Pubkey>, key: Pubkey)
    requires
        keys.no_duplicates(),
    ensures
        with_key(keys, key).no_duplicates(),
{
}

/// Removing a key from a list without duplicates leaves it without
/// duplicates.
pub proof fn lemma_without_key_distinct(keys: Seq<Pubkey>, key: Pubkey)
    requires
        keys.no_duplicates(),
    ensures
        without_key(keys, key).no_duplicates(),
{
    if keys.contains(key) {
        let at = keys.index_of(key);
        let rest = keys.remove(at);
        assert forall|i: int, j: int| 0 <= i < rest.len() && 0 <= j < rest.len() && i != j implies rest[i]
            != rest[j] by {
            let a = if i < at { i } else { i + 1 };
            let b = if j < at { j } else { j + 1 };
            assert(rest[i] == keys[a]);
            assert(rest[j] == keys[b]);
        }
    }
}

/// The caps hold throughout: at every moment of a presale's life it is well
/// formed, so neither the funds raised nor the tokens sold exceed the hard
/// cap, and the terms are those it began with.
pub proof fn lemma_caps_hold_for_life(states: Seq<Presale>, at: int)
    requires
        lifetime(states),
        0 <= at < states.len(),
    ensures
        states[at].wf(),
        states[at].same_terms(&states[0]),
        states[at].funds_raised <= states[at].hard_cap,
        states[at].tokens_sold <= states[at].hard_cap,
    decreases at,
{
    if at > 0 {
        lemma_caps_hold_for_life(states, at - 1);
        lemma_step(states[at - 1], states[at]);
    }
}

/// The totals never fall: between any two moments of a presale's life, the
/// funds raised and the tokens sold have grown or stayed.
pub proof fn lemma_totals_never_fall(states: Seq<Presale>, earlier: int, later: int)
    requires
        lifetime(states),
        0 <= earlier <= later < states.len(),
    ensures
        states[earlier].funds_raised <= states[later].funds_raised,
        states[earlier].tokens_sold <= states[later].tokens_sold,
    decreases later - earlier,
{
    if earlier < later {
        lemma_totals_never_fall(states, earlier, later - 1);
        lemma_caps_hold_for_life(states, later - 1);
        lemma_step(states[later - 1], states[later]);
    }
}

/// A finalized presale refuses every contribution: with
/// `PresaleAlreadyFinalized` whenever the time is within the sale window, and
/// with the error of the window otherwise.
pub proof fn lemma_finalized_refuses(presale: Presale, buyer: Pubkey, amount: u64, now: i64)
    requires
        presale.is_finalized,
    ensures
        presale.refusal(buyer, amount, now) is Some,
        presale.start_sale <= now <= presale.end_sale ==> presale.refusal(buyer, amount, now)
            == Some(ErrorCode::PresaleAlreadyFinalized),
        now < presale.start_sale ==> presale.refusal(buyer, amount, now) == Some(
            ErrorCode::PresaleNotStarted,
        ),
        presale.start_sale <= now && now > presale.end_sale ==> presale.refusal(buyer, amount, now)
            == Some(ErrorCode::PresaleEnded),
{
}

/// Finalization is terminal: once a presale is finalized it stays finalized
/// for the rest of its life, its totals stay as they were, and it refuses
/// every contribution.
pub proof fn lemma_finalized_is_terminal(
    states: Seq<Presale>,
    finalized_at: int,
    later: int,
    buyer: Pubkey,
    amount: u64,
    now: i64,
)
    requires
        lifetime(states),
        0 <= finalized_at <= later < states.len(),
        states[finalized_at].is_finalized,
    ensures
        states[later].is_finalized,
        states[later].funds_raised == states[finalized_at].funds_raised,
        states[later].tokens_sold == states[finalized_at].tokens_sold,
        states[later].refusal(buyer, amount, now) is Some,
        states[later].start_sale <= now <= states[later].end_sale ==> states[later].refusal(
            buyer,
            amount,
            now,
        ) == Some(ErrorCode::PresaleAlreadyFinalized),
    decreases later - finalized_at,
{
    if finalized_at < later {
        lemma_finalized_is_terminal(states, finalized_at, later - 1, buyer, amount, now);
        lemma_caps_hold_for_life(states, later - 1);
        lemma_step(states[later - 1], states[later]);
    }
    lemma_finalized_refuses(states[later], buyer, amount, now);
}

/// The whitelist shuts out: a whitelisted presale refuses every contribution
/// of an identity that is not on the list, with `Unauthorized` whenever the
/// sale is open, that is within its window and not finalized.
pub proof fn lemma_whitelist_shuts_out(presale: Presale, buyer: Pubkey, amount: u64, now: i64)
    requires
        presale.is_whitelist,
        !presale.whitelist().contains(buyer),
    ensures
        presale.refusal(buyer, amount, now) is Some,
        presale.start_sale <= now <= presale.end_sale && !presale.is_finalized
            ==> presale.refusal(buyer, amount, now) == Some(ErrorCode::Unauthorized),
{
}

/// The whitelist lets in: once an identity has been added to the whitelist,
/// its contribution is decided by the other checks alone. Whenever the sale is
/// open, the contribution is refused exactly if the amount does not fit, and
/// with that error.
pub proof fn lemma_whitelist_lets_in(
    before: Presale,
    after: Presale,
    buyer: Pubkey,
    amount: u64,
    now: i64,
)
    requires
        after.same_sale(&before),
        after.participants@ == with_key(before.participants@, buyer),
    ensures
        after.whitelist().contains(buyer),
        after.entry_refusal(buyer, now) != Some(ErrorCode::Unauthorized),
        after.start_sale <= now <= after.end_sale && !after.is_finalized ==> after.refusal(
            buyer,
            amount,
            now,
        ) == before.amount_refusal(amount),
{
    if before.participants@.contains(buyer) {
    } else {
        let last = before.participants@.len() as int;
        assert(after.participants@[last] == buyer);
    }
}

} // verus!

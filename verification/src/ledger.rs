//! The buyers' ledger: one entry per contributor, in order of first
//! contribution, each with the contributor's cumulative amount.

use anchor_lang::prelude::Pubkey;
use vstd::prelude::*;

use crate::identity::same_key;

verus! {

/// A contributor and the total they have contributed so far.
#[derive(Clone, Copy, Debug, PartialEq, Eq)]
pub struct Buyer {
    /// The contributor.
    pub buyer: Pubkey,
    /// Everything the contributor has paid in, in payment-asset units.
    pub amount: u64,
}

/// No identity has two entries.
pub open spec fn distinct_buyers(ledger: Seq<Buyer>) -> bool {
    forall|i: int, j: int| 0 <= i < j < ledger.len() ==> ledger[i].buyer != ledger[j].buyer
}

/// Does `who` have an entry?
pub open spec fn has_entry(ledger: Seq<Buyer>, who: Pubkey) -> bool {
    exists|i: int| 0 <= i < ledger.len() && #[trigger] ledger[i].buyer == who
}

/// The sum of all entries.
pub open spec fn ledger_total(ledger: Seq<Buyer>) -> nat
    decreases ledger.len(),
{
    if ledger.len() == 0 {
        0
    } else {
        ledger_total(ledger.drop_last()) + ledger.last().amount as nat
    }
}

/// The ledger after `who` has contributed `amount` more: their entry grows by
/// `amount`, or, if they had none, a new entry is appended.
pub open spec fn with_contribution(ledger: Seq<Buyer>, who: Pubkey, amount: u64) -> Seq<Buyer> {
    if has_entry(ledger, who) {
        Seq::new(
            ledger.len(),
            |i: int|
                if ledger[i].buyer == who {
                    Buyer { buyer: who, amount: (ledger[i].amount + amount) as u64 }
                } else {
                    ledger[i]
                },
        )
    } else {
        ledger.push(Buyer { buyer: who, amount })
    }
}

/// Appending an entry adds its amount to the total.
pub proof fn lemma_total_push(ledger: Seq<Buyer>, entry: Buyer)
    ensures
        ledger_total(ledger.push(entry)) == ledger_total(ledger) + entry.amount,
{
    assert(ledger.push(entry).drop_last() =~= ledger);
}

/// Replacing an entry changes the total by the difference of the amounts.
pub proof fn lemma_total_update(ledger: Seq<Buyer>, at: int, entry: Buyer)
    requires
        0 <= at < ledger.len(),
    ensures
        ledger_total(ledger.update(at, entry)) == ledger_total(ledger) - ledger[at].amount
            + entry.amount,
    decreases ledger.len(),
{
    let updated = ledger.update(at, entry);
    if at == ledger.len() - 1 {
        assert(updated.drop_last() =~= ledger.drop_last());
    } else {
        assert(updated.drop_last() =~= ledger.drop_last().update(at, entry));
        lemma_total_update(ledger.drop_last(), at, entry);
    }
}

/// No entry exceeds the total.
pub proof fn lemma_entry_within_total(ledger: Seq<Buyer>, at: int)
    requires
        0 <= at < ledger.len(),
    ensures
        ledger[at].amount <= ledger_total(ledger),
    decreases ledger.len(),
{
    if at < ledger.len() - 1 {
        lemma_entry_within_total(ledger.drop_last(), at);
    }
}

/// The total of the first `n + 1` entries is that of the first `n` plus the
/// next entry.
pub proof fn lemma_total_take_next(ledger: Seq<Buyer>, n: int)
    requires
        0 <= n < ledger.len(),
    ensures
        ledger_total(ledger.take(n + 1)) == ledger_total(ledger.take(n)) + ledger[n].amount,
{
    assert(ledger.take(n + 1).drop_last() =~= ledger.take(n));
}

/// The total of a prefix is at most the total of the whole.
pub proof fn lemma_total_take_within(ledger: Seq<Buyer>, n: int)
    requires
        0 <= n <= ledger.len(),
    ensures
        ledger_total(ledger.take(n)) <= ledger_total(ledger),
    decreases ledger.len() - n,
{
    if n == ledger.len() {
        assert(ledger.take(n) =~= ledger);
    } else {
        lemma_total_take_next(ledger, n);
        lemma_total_take_within(ledger, n + 1);
    }
}

/// Where the entry of `who` stands, if they have one.
pub fn find_entry(ledger: &Vec<Buyer>, who: &Pubkey) -> (found: Option<usize>)
    ensures
        match found {
            Some(at) => at < ledger.len() && ledger@[at as int].buyer == *who,
            None => !has_entry(ledger@, *who),
        },
{
    let mut i: usize = 0;
    while i < ledger.len()
        invariant
            i <= ledger.len(),
            forall|j: int| 0 <= j < i ==> ledger@[j].buyer != *who,
        decreases ledger.len() - i,
    {
        if same_key(&ledger[i].buyer, who) {
            return Some(i);
        }
        i += 1;
    }
    None
}

/// Tests `distinct_buyers` at run time.
pub fn has_distinct_buyers(ledger: &Vec<Buyer>) -> (ok: bool)
    ensures
        ok == distinct_buyers(ledger@),
{
    let mut j: usize = 0;
    while j < ledger.len()
        invariant
            j <= ledger.len(),
            forall|a: int, b: int| 0 <= a < b < j ==> ledger@[a].buyer != ledger@[b].buyer,
        decreases ledger.len() - j,
    {
        let mut i: usize = 0;
        while i < j
            invariant
                i <= j < ledger.len(),
                forall|a: int| 0 <= a < i ==> ledger@[a].buyer != ledger@[j as int].buyer,
            decreases j - i,
        {
            if same_key(&ledger[i].buyer, &ledger[j].buyer) {
                return false;
            }
            i += 1;
        }
        j += 1;
    }
    true
}

/// Does the ledger add up to `total`?
pub fn ledger_adds_up_to(ledger: &Vec<Buyer>, total: u64) -> (ok: bool)
    ensures
        ok == (ledger_total(ledger@) == total),
{
    let mut sum: u64 = 0;
    let mut i: usize = 0;
    while i < ledger.len()
        invariant
            i <= ledger.len(),
            sum == ledger_total(ledger@.take(i as int)),
        decreases ledger.len() - i,
    {
        proof {
            lemma_total_take_next(ledger@, i as int);
            lemma_total_take_within(ledger@, i + 1);
        }
        match sum.checked_add(ledger[i].amount) {
            Some(next) => {
                sum = next;
            },
            None => {
                return false;
            },
        }
        i += 1;
    }
    assert(ledger@.take(i as int) =~= ledger@);
    sum == total
}

/// Crediting a contribution keeps one entry per buyer and adds the amount to
/// the total.
pub proof fn lemma_with_contribution(ledger: Seq<Buyer>, who: Pubkey, amount: u64)
    requires
        distinct_buyers(ledger),
        ledger_total(ledger) + amount <= u64::MAX,
    ensures
        distinct_buyers(with_contribution(ledger, who, amount)),
        ledger_total(with_contribution(ledger, who, amount)) == ledger_total(ledger) + amount,
{
    let credited = with_contribution(ledger, who, amount);
    if has_entry(ledger, who) {
        let at = choose|i: int| 0 <= i < ledger.len() && #[trigger] ledger[i].buyer == who;
        let entry = Buyer { buyer: who, amount: (ledger[at].amount + amount) as u64 };
        lemma_entry_within_total(ledger, at);
        lemma_total_update(ledger, at, entry);
        assert(credited =~= ledger.update(at, entry));
    } else {
        lemma_total_push(ledger, Buyer { buyer: who, amount });
    }
}

/// Records that `who` has contributed `amount` more.
pub fn credit(ledger: &mut Vec<Buyer>, who: &Pubkey, amount: u64)
    requires
        distinct_buyers(old(ledger)@),
        ledger_total(old(ledger)@) + amount <= u64::MAX,
    ensures
        final(ledger)@ == with_contribution(old(ledger)@, *who, amount),
        distinct_buyers(final(ledger)@),
        ledger_total(final(ledger)@) == ledger_total(old(ledger)@) + amount,
{
    proof {
        lemma_with_contribution(ledger@, *who, amount);
    }
    match find_entry(ledger, who) {
        Some(at) => {
            let entry = ledger[at];
            proof {
                lemma_entry_within_total(ledger@, at as int);
            }
            ledger.set(at, Buyer { buyer: entry.buyer, amount: entry.amount + amount });
            assert(ledger@ =~= with_contribution(old(ledger)@, *who, amount));
        },
        None => {
            ledger.push(Buyer { buyer: *who, amount });
        },
    }
}

} // verus!

//! Account identities.
//!
//! The engine never looks inside an identity: it stores identities, hands them
//! on, and asks whether two of them are the same.

use anchor_lang::prelude::Pubkey;
use vstd::prelude::*;

verus! {

/// `anchor_lang::prelude::Pubkey`, the address of an account. To the verifier
/// it is an opaque value.
#[verifier::external_type_specification]
#[verifier::external_body]
pub struct ExPubkey(anchor_lang::prelude::Pubkey);

/// Calls `Pubkey`'s `==`, which is derived over the 32 bytes of the key: the
/// answer is `true` exactly when the two keys are the same key.
#[verifier::external_body]
pub(crate) fn same_key(a: &Pubkey, b: &Pubkey) -> (same: bool)
    ensures
        same == (*a == *b),
{
    a == b
}

/// `Pubkey`'s `clone`. `Pubkey` is `Copy` and its `Clone` is derived: the
/// clone is the same key.
pub assume_specification[ <Pubkey as Clone>::clone ](key: &Pubkey) -> (copy: Pubkey)
    ensures
        copy == *key,
;

/// The members of a list of keys, as a set.
pub open spec fn key_set(keys: Seq<Pubkey>) -> Set<Pubkey> {
    Set::new(|key: Pubkey| keys.contains(key))
}

/// `keys` with `key` as a member: unchanged if it is one already, else with
/// `key` appended.
pub open spec fn with_key(keys: Seq<Pubkey>, key: Pubkey) -> Seq<Pubkey> {
    if keys.contains(key) {
        keys
    } else {
        keys.push(key)
    }
}

/// `keys` without `key`: unchanged if it is no member, else with its entry
/// taken out and the others kept in order.
pub open spec fn without_key(keys: Seq<Pubkey>, key: Pubkey) -> Seq<Pubkey> {
    if keys.contains(key) {
        keys.remove(keys.index_of(key))
    } else {
        keys
    }
}

/// Where `key` stands in `keys`, if it is a member.
pub fn find_key(keys: &Vec<Pubkey>, key: &Pubkey) -> (found: Option<usize>)
    ensures
        match found {
            Some(at) => at < keys.len() && keys@[at as int] == *key,
            None => !keys@.contains(*key),
        },
{
    let mut i: usize = 0;
    while i < keys.len()
        invariant
            i <= keys.len(),
            forall|j: int| 0 <= j < i ==> keys@[j] != *key,
        decreases keys.len() - i,
    {
        if same_key(&keys[i], key) {
            return Some(i);
        }
        i += 1;
    }
    None
}

/// Is `key` a member of `keys`?
pub fn holds_key(keys: &Vec<Pubkey>, key: &Pubkey) -> (found: bool)
    ensures
        found == keys@.contains(*key),
        found == key_set(keys@).contains(*key),
{
    find_key(keys, key).is_some()
}

/// Is every member of `keys` listed once only?
pub fn has_distinct_keys(keys: &Vec<Pubkey>) -> (ok: bool)
    ensures
        ok == keys@.no_duplicates(),
{
    let mut j: usize = 0;
    while j < keys.len()
        invariant
            j <= keys.len(),
            forall|a: int, b: int| 0 <= a < b < j ==> keys@[a] != keys@[b],
        decreases keys.len() - j,
    {
        let mut i: usize = 0;
        while i < j
            invariant
                i <= j < keys.len(),
                forall|a: int| 0 <= a < i ==> keys@[a] != keys@[j as int],
            decreases j - i,
        {
            if same_key(&keys[i], &keys[j]) {
                return false;
            }
            i += 1;
        }
        j += 1;
    }
    true
}

/// Makes `key` a member of `keys`.
pub fn insert_key(keys: &mut Vec<Pubkey>, key: Pubkey)
    requires
        old(keys)@.no_duplicates(),
    ensures
        final(keys)@ == with_key(old(keys)@, key),
        final(keys)@.no_duplicates(),
        key_set(final(keys)@) == key_set(old(keys)@).insert(key),
{
    if !holds_key(keys, &key) {
        keys.push(key);
        assert forall|k: Pubkey| keys@.contains(k) <==> (old(keys)@.contains(k) || k == key) by {
            if old(keys)@.contains(k) {
                let i = old(keys)@.index_of(k);
                assert(keys@[i] == k);
            }
            if k == key {
                assert(keys@[old(keys)@.len() as int] == k);
            }
        }
    }
    assert(key_set(keys@) =~= key_set(old(keys)@).insert(key));
}

/// Takes `key` out of `keys`.
pub fn remove_key(keys: &mut Vec<Pubkey>, key: &Pubkey)
    requires
        old(keys)@.no_duplicates(),
    ensures
        final(keys)@ == without_key(old(keys)@, *key),
        final(keys)@.no_duplicates(),
        key_set(final(keys)@) == key_set(old(keys)@).remove(*key),
{
    match find_key(keys, key) {
        Some(at) => {
            keys.remove(at);
            assert(old(keys)@.index_of(*key) == at);
            assert forall|k: Pubkey| keys@.contains(k) <==> (old(keys)@.contains(k) && k
                != *key) by {
                if keys@.contains(k) {
                    let i = keys@.index_of(k);
                    if i < at {
                        assert(old(keys)@[i] == k);
                    } else {
                        assert(old(keys)@[i + 1] == k);
                    }
                }
                if old(keys)@.contains(k) && k != *key {
                    let i = old(keys)@.index_of(k);
                    if i < at {
                        assert(keys@[i] == k);
                    } else {
                        assert(keys@[i - 1] == k);
                    }
                }
            }
        },
        None => {},
    }
    assert(key_set(keys@) =~= key_set(old(keys)@).remove(*key));
}

} // verus!

use anchor_lang::prelude::Pubkey;
use presale_factory::create::{create_presale, CreatePresale};
use presale_factory::error::ErrorCode;
use presale_factory::factory::Factory;
use presale_factory::identity::{find_key, has_distinct_keys, holds_key, insert_key, remove_key};
use presale_factory::presale::Presale;
use presale_factory::purchase::{buy_tokens, BuyTokens};

const OPEN: i64 = 1_500;

fn id(tag: u8) -> Pubkey {
    Pubkey::new_from_array([tag; 32])
}

fn gated(is_whitelist: bool) -> Presale {
    let mut ctx = CreatePresale {
        factory: Factory { owner: id(1), presale_count: 0, platform_fee: 500 },
        presale: id(20),
        owner: id(1),
        token_vault: id(21),
    };
    create_presale(
        &mut ctx,
        id(2),
        id(3),
        id(4),
        id(5),
        10,
        500_000,
        1_000_000,
        100,
        10_000,
        1_000,
        2_000,
        0,
        false,
        true,
        is_whitelist,
        false,
        false,
        0,
        0,
        0,
        0,
        id(6),
        0,
        id(7),
        id(8),
    )
    .unwrap()
    .presale
}

fn accounts(presale: Presale, buyer: u8) -> BuyTokens {
    BuyTokens {
        presale,
        buyer: id(buyer),
        presale_vault: id(30),
        presale_payment_vault: id(31),
        buyer_payment_account: id(32),
        buyer_token_account: id(33),
        token_vault: id(21),
    }
}

#[test]
fn a_whitelisted_sale_shuts_out_an_identity_that_is_not_listed() {
    let mut ctx = accounts(gated(true), 40);
    let before = ctx.clone();
    assert_eq!(buy_tokens(&mut ctx, 1_000, OPEN), Err(ErrorCode::Unauthorized));
    assert_eq!(buy_tokens(&mut ctx, 50, OPEN), Err(ErrorCode::Unauthorized));
    assert_eq!(buy_tokens(&mut ctx, u64::MAX, OPEN), Err(ErrorCode::Unauthorized));
    assert!(buy_tokens(&mut ctx, 1_000, 999).is_err());
    assert!(buy_tokens(&mut ctx, 1_000, 2_001).is_err());
    assert_eq!(ctx, before);
}

#[test]
fn a_whitelisted_sale_lets_an_identity_in_once_it_is_listed() {
    let mut ctx = accounts(gated(true), 40);
    assert_eq!(buy_tokens(&mut ctx, 1_000, OPEN), Err(ErrorCode::Unauthorized));
    assert_eq!(ctx.presale.add_participant(&id(2), id(40)), Ok(()));
    assert_eq!(buy_tokens(&mut ctx, 1_000, OPEN).unwrap().delivery.amount, 100);
    assert_eq!(buy_tokens(&mut ctx, 50, OPEN), Err(ErrorCode::AmountTooLow));
    ctx.buyer = id(41);
    assert_eq!(buy_tokens(&mut ctx, 1_000, OPEN), Err(ErrorCode::Unauthorized));
    assert_eq!(ctx.presale.funds_raised, 1_000);
}

#[test]
fn an_identity_taken_off_the_list_is_shut_out_again() {
    let mut ctx = accounts(gated(true), 40);
    ctx.presale.add_participant(&id(2), id(40)).unwrap();
    assert!(buy_tokens(&mut ctx, 1_000, OPEN).is_ok());
    assert_eq!(ctx.presale.remove_participant(&id(2), &id(40)), Ok(()));
    assert_eq!(buy_tokens(&mut ctx, 1_000, OPEN), Err(ErrorCode::Unauthorized));
    assert_eq!(ctx.presale.funds_raised, 1_000);
}

#[test]
fn a_sale_without_whitelist_lets_everyone_in() {
    let mut ctx = accounts(gated(false), 40);
    assert!(!ctx.presale.is_participant(&id(40)));
    assert!(buy_tokens(&mut ctx, 1_000, OPEN).is_ok());
}

#[test]
fn only_the_owner_changes_the_whitelist() {
    let mut presale = gated(true);
    let before = presale.clone();
    assert_eq!(presale.add_participant(&id(1), id(40)), Err(ErrorCode::Unauthorized));
    assert_eq!(presale.add_participant(&id(40), id(40)), Err(ErrorCode::Unauthorized));
    assert_eq!(presale, before);
    presale.add_participant(&id(2), id(40)).unwrap();
    let before = presale.clone();
    assert_eq!(presale.remove_participant(&id(40), &id(40)), Err(ErrorCode::Unauthorized));
    assert_eq!(presale, before);
    assert!(presale.is_participant(&id(40)));
}

#[test]
fn the_whitelist_is_a_set() {
    let mut presale = gated(true);
    presale.add_participant(&id(2), id(40)).unwrap();
    presale.add_participant(&id(2), id(41)).unwrap();
    presale.add_participant(&id(2), id(40)).unwrap();
    presale.add_participant(&id(2), id(42)).unwrap();
    assert_eq!(presale.participants, vec![id(40), id(41), id(42)]);
    presale.remove_participant(&id(2), &id(41)).unwrap();
    assert_eq!(presale.participants, vec![id(40), id(42)]);
    presale.remove_participant(&id(2), &id(41)).unwrap();
    presale.remove_participant(&id(2), &id(99)).unwrap();
    assert_eq!(presale.participants, vec![id(40), id(42)]);
    assert!(presale.is_participant(&id(40)));
    assert!(!presale.is_participant(&id(41)));
    assert!(presale.is_participant(&id(42)));
    assert!(presale.is_well_formed());
}

#[test]
fn changing_the_whitelist_leaves_the_sale_as_it_was() {
    let mut ctx = accounts(gated(false), 40);
    buy_tokens(&mut ctx, 1_000, OPEN).unwrap();
    let before = ctx.presale.clone();
    ctx.presale.add_participant(&id(2), id(50)).unwrap();
    ctx.presale.remove_participant(&id(2), &id(50)).unwrap();
    assert_eq!(ctx.presale, before);
}

#[test]
fn keys_are_told_apart_by_their_bytes() {
    let mut other = [7u8; 32];
    other[31] = 8;
    let keys = vec![id(7), Pubkey::new_from_array(other)];
    assert!(holds_key(&keys, &id(7)));
    assert!(holds_key(&keys, &Pubkey::new_from_array(other)));
    assert!(!holds_key(&keys, &id(8)));
    assert_eq!(find_key(&keys, &id(7)), Some(0));
    assert_eq!(find_key(&keys, &Pubkey::new_from_array(other)), Some(1));
    assert_eq!(find_key(&keys, &id(8)), None);
    assert_eq!(find_key(&Vec::new(), &id(7)), None);
}

#[test]
fn duplicate_keys_are_found() {
    assert!(has_distinct_keys(&Vec::new()));
    assert!(has_distinct_keys(&vec![id(1)]));
    assert!(has_distinct_keys(&vec![id(1), id(2), id(3)]));
    assert!(!has_distinct_keys(&vec![id(1), id(2), id(1)]));
    assert!(!has_distinct_keys(&vec![id(2), id(2)]));
    assert!(!has_distinct_keys(&vec![id(1), id(2), id(3), id(3)]));
}

#[test]
fn insert_key_and_remove_key_keep_the_order_of_the_rest() {
    let mut keys = vec![id(1), id(2), id(3)];
    insert_key(&mut keys, id(2));
    assert_eq!(keys, vec![id(1), id(2), id(3)]);
    insert_key(&mut keys, id(4));
    assert_eq!(keys, vec![id(1), id(2), id(3), id(4)]);
    remove_key(&mut keys, &id(1));
    assert_eq!(keys, vec![id(2), id(3), id(4)]);
    remove_key(&mut keys, &id(9));
    assert_eq!(keys, vec![id(2), id(3), id(4)]);
    remove_key(&mut keys, &id(4));
    assert_eq!(keys, vec![id(2), id(3)]);
}

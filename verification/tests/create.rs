use anchor_lang::prelude::Pubkey;
use presale_factory::create::{
    check_terms, create_presale, CreatePresale, Creation, MintRequest, PresaleCreated,
};
use presale_factory::error::ErrorCode;
use presale_factory::factory::Factory;

fn id(tag: u8) -> Pubkey {
    Pubkey::new_from_array([tag; 32])
}

fn accounts(platform_fee: u64, presale_count: u64) -> CreatePresale {
    CreatePresale {
        factory: Factory { owner: id(1), presale_count, platform_fee },
        presale: id(20),
        owner: id(1),
        token_vault: id(21),
    }
}

fn create(
    ctx: &mut CreatePresale,
    soft_cap: u64,
    hard_cap: u64,
    min_buy: u64,
    max_buy: u64,
    start_sale: i64,
    end_sale: i64,
) -> Result<Creation, ErrorCode> {
    create_presale(
        ctx,
        id(2),
        id(3),
        id(4),
        id(5),
        10,
        soft_cap,
        hard_cap,
        min_buy,
        max_buy,
        start_sale,
        end_sale,
        60,
        true,
        false,
        true,
        false,
        true,
        25,
        30,
        15,
        8,
        id(6),
        90,
        id(7),
        id(8),
    )
}

#[test]
fn creation_computes_the_fee_and_zeroes_the_totals() {
    let mut ctx = accounts(500, 0);
    let created = create(&mut ctx, 500_000, 1_000_000, 100, 10_000, 1_000, 2_000).unwrap();
    assert_eq!(created.presale.platform_fee, 50_000);
    assert_eq!(created.presale.tokens_sold, 0);
    assert_eq!(created.presale.funds_raised, 0);
    assert!(!created.presale.is_finalized);
    assert!(created.presale.participants.is_empty());
    assert!(created.presale.buyers.is_empty());
    assert!(created.presale.is_well_formed());
    assert_eq!(ctx.factory.presale_count, 1);
}

#[test]
fn creation_copies_every_term_as_given() {
    let mut ctx = accounts(500, 7);
    let p = create(&mut ctx, 500_000, 1_000_000, 100, 10_000, 1_000, 2_000).unwrap().presale;
    assert_eq!(p.owner, id(2));
    assert_eq!(p.token, id(3));
    assert_eq!(p.payment_token, id(4));
    assert_eq!(p.dex_router, id(5));
    assert_eq!(p.presale_rate, 10);
    assert_eq!(p.soft_cap, 500_000);
    assert_eq!(p.hard_cap, 1_000_000);
    assert_eq!(p.min_buy, 100);
    assert_eq!(p.max_buy, 10_000);
    assert_eq!(p.start_sale, 1_000);
    assert_eq!(p.end_sale, 2_000);
    assert_eq!(p.liquidity_percent, 60);
    assert!(p.is_fund);
    assert!(!p.is_native);
    assert!(p.is_whitelist);
    assert!(!p.is_auto_listing);
    assert!(p.is_vesting);
    assert_eq!(p.first_release_percent, 25);
    assert_eq!(p.vesting_period, 30);
    assert_eq!(p.tokens_release_percent, 15);
    assert_eq!(p.listing_rate, 8);
    assert_eq!(p.demy_address, id(6));
    assert_eq!(p.liquidity_time, 90);
    assert_eq!(p.qerralock, id(7));
    assert_eq!(p.uniswap_factory, id(8));
    assert_eq!(ctx.factory.presale_count, 8);
    assert_eq!(ctx.factory.owner, id(1));
    assert_eq!(ctx.factory.platform_fee, 500);
}

#[test]
fn creation_asks_for_the_hard_cap_to_be_minted_and_gives_notice() {
    let mut ctx = accounts(500, 0);
    let created = create(&mut ctx, 500_000, 1_000_000, 100, 10_000, 1_000, 2_000).unwrap();
    assert_eq!(
        created.mint,
        MintRequest { token: id(3), authority: id(2), vault: id(21), amount: 1_000_000 }
    );
    assert_eq!(
        created.notice,
        PresaleCreated { presale: id(20), owner: id(2), start_sale: 1_000, end_sale: 2_000 }
    );
}

#[test]
fn soft_cap_above_hard_cap_is_refused() {
    let mut ctx = accounts(500, 4);
    let before = ctx;
    let result = create(&mut ctx, 600_000, 500_000, 100, 10_000, 1_000, 2_000);
    assert_eq!(result, Err(ErrorCode::InvalidCap));
    assert_eq!(ctx.factory.presale_count, 4);
    assert_eq!(ctx, before);
}

#[test]
fn window_that_does_not_open_before_it_closes_is_refused() {
    let mut ctx = accounts(500, 4);
    assert_eq!(create(&mut ctx, 1, 2, 1, 2, 2_000, 2_000), Err(ErrorCode::InvalidTime));
    assert_eq!(create(&mut ctx, 1, 2, 1, 2, 2_001, 2_000), Err(ErrorCode::InvalidTime));
    assert_eq!(ctx.factory.presale_count, 4);
}

#[test]
fn minimum_above_maximum_is_refused() {
    let mut ctx = accounts(500, 4);
    assert_eq!(create(&mut ctx, 1, 2, 3, 2, 1_000, 2_000), Err(ErrorCode::InvalidMinMax));
    assert_eq!(ctx.factory.presale_count, 4);
}

#[test]
fn the_first_contradiction_decides_the_error() {
    let mut ctx = accounts(500, 0);
    assert_eq!(create(&mut ctx, 3, 2, 3, 2, 2_000, 1_000), Err(ErrorCode::InvalidCap));
    assert_eq!(create(&mut ctx, 2, 2, 3, 2, 2_000, 1_000), Err(ErrorCode::InvalidTime));
    assert_eq!(create(&mut ctx, 2, 2, 3, 2, 1_000, 2_000), Err(ErrorCode::InvalidMinMax));
    assert_eq!(ctx.factory.presale_count, 0);
}

#[test]
fn equal_caps_and_equal_bounds_are_accepted() {
    let mut ctx = accounts(500, 0);
    let created = create(&mut ctx, 2, 2, 5, 5, -1, 0).unwrap();
    assert_eq!(created.presale.soft_cap, 2);
    assert_eq!(created.presale.min_buy, 5);
    assert_eq!(ctx.factory.presale_count, 1);
}

#[test]
fn a_caller_who_does_not_own_the_factory_is_refused() {
    let mut ctx = accounts(500, 4);
    ctx.owner = id(9);
    let before = ctx;
    let result = create(&mut ctx, 500_000, 1_000_000, 100, 10_000, 1_000, 2_000);
    assert_eq!(result, Err(ErrorCode::Unauthorized));
    assert_eq!(ctx, before);
    let result = create(&mut ctx, 600_000, 500_000, 100, 10_000, 1_000, 2_000);
    assert_eq!(result, Err(ErrorCode::Unauthorized));
}

#[test]
fn the_fee_is_rounded_down_and_fits_at_the_largest_hard_cap() {
    let mut ctx = accounts(333, 0);
    assert_eq!(create(&mut ctx, 0, 100, 0, 1, 0, 1).unwrap().presale.platform_fee, 3);
    let mut ctx = accounts(10_000, 0);
    let created = create(&mut ctx, 0, u64::MAX, 0, 1, 0, 1).unwrap();
    assert_eq!(created.presale.platform_fee, u64::MAX);
    assert_eq!(created.mint.amount, u64::MAX);
    let mut ctx = accounts(0, 0);
    assert_eq!(create(&mut ctx, 0, u64::MAX, 0, 1, 0, 1).unwrap().presale.platform_fee, 0);
}

#[test]
fn each_creation_counts_once() {
    let mut ctx = accounts(500, 0);
    for made in 1..=5u64 {
        create(&mut ctx, 1, 2, 1, 2, 1_000, 2_000).unwrap();
        assert_eq!(ctx.factory.presale_count, made);
        let _ = create(&mut ctx, 3, 2, 1, 2, 1_000, 2_000);
        assert_eq!(ctx.factory.presale_count, made);
    }
}

#[test]
fn check_terms_names_each_contradiction() {
    assert_eq!(check_terms(1, 2, 1, 2, 1, 2), Ok(()));
    assert_eq!(check_terms(3, 2, 1, 2, 1, 2), Err(ErrorCode::InvalidCap));
    assert_eq!(check_terms(1, 2, 1, 2, 2, 2), Err(ErrorCode::InvalidTime));
    assert_eq!(check_terms(1, 2, 3, 2, 1, 2), Err(ErrorCode::InvalidMinMax));
}

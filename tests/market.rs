use fan_rewards_nft_market::{
    safe_mul_div, Address, Error, FanRewardsNftMarket, NftInfo, Payment, Settlement, TokenId,
};

const CREATOR: Address = Address(1);
const OWNER: Address = Address(2);
const BUYER: Address = Address(3);
const TOKEN: Address = Address(4);
const ADMIN: Address = Address(5);

fn uri() -> Vec<u8> {
    b"ipfs://x".to_vec()
}

fn mint_one(m: &mut FanRewardsNftMarket, royalty_bps: u32) -> TokenId {
    m.mint(&vec![CREATOR], CREATOR, OWNER, royalty_bps, uri()).unwrap()
}

#[test]
fn mint_then_get_info_reports_fields() {
    let mut m = FanRewardsNftMarket::new();
    let id = mint_one(&mut m, 250);
    assert_eq!(id, TokenId(1));
    let info = m.get_info(id).unwrap();
    assert_eq!(
        info,
        NftInfo { token_id: TokenId(1), owner: OWNER, creator: CREATOR, royalty_bps: 250, uri: uri() }
    );
}

#[test]
fn fifth_mint_is_id_five() {
    let mut m = FanRewardsNftMarket::new();
    for expected in 1u128..=4 {
        assert_eq!(mint_one(&mut m, 0), TokenId(expected));
    }
    assert_eq!(mint_one(&mut m, 0), TokenId(5));
}

#[test]
fn mint_royalty_bounds() {
    let mut m = FanRewardsNftMarket::new();
    assert_eq!(m.mint(&vec![CREATOR], CREATOR, OWNER, 10001, uri()), Err(Error::InvalidRoyalty));
    assert_eq!(m.mint(&vec![CREATOR], CREATOR, OWNER, 10000, uri()), Ok(TokenId(1)));
    assert_eq!(m.mint(&vec![CREATOR], CREATOR, OWNER, 0, uri()), Ok(TokenId(2)));
}

#[test]
fn mint_needs_creator_authorization() {
    let mut m = FanRewardsNftMarket::new();
    assert_eq!(m.mint(&vec![OWNER], CREATOR, OWNER, 100, uri()), Err(Error::NotAuthorized));
    assert_eq!(m.get_info(TokenId(1)), Err(Error::TokenNotFound));
    assert_eq!(m.mint(&vec![OWNER, CREATOR], CREATOR, OWNER, 100, uri()), Ok(TokenId(1)));
}

#[test]
fn get_info_of_unknown_id() {
    let mut m = FanRewardsNftMarket::new();
    assert_eq!(m.get_info(TokenId(0)), Err(Error::TokenNotFound));
    mint_one(&mut m, 0);
    assert_eq!(m.get_info(TokenId(2)), Err(Error::TokenNotFound));
}

#[test]
fn transfer_errors() {
    let mut m = FanRewardsNftMarket::new();
    assert_eq!(m.transfer(&vec![OWNER], TokenId(1), OWNER, BUYER), Err(Error::TokenNotFound));
    let id = mint_one(&mut m, 0);
    assert_eq!(m.transfer(&vec![BUYER], id, BUYER, ADMIN), Err(Error::NotOwner));
    assert_eq!(m.transfer(&vec![OWNER], id, OWNER, OWNER), Err(Error::SameOwner));
    assert_eq!(m.transfer(&vec![], id, OWNER, BUYER), Err(Error::NotAuthorized));
    assert_eq!(m.get_info(id).unwrap().owner, OWNER);
}

#[test]
fn transfer_checks_owner_before_authorization() {
    let mut m = FanRewardsNftMarket::new();
    let id = mint_one(&mut m, 0);
    assert_eq!(m.transfer(&vec![], id, BUYER, ADMIN), Err(Error::NotOwner));
}

#[test]
fn transfer_moves_ownership() {
    let mut m = FanRewardsNftMarket::new();
    let id = mint_one(&mut m, 0);
    assert_eq!(m.transfer(&vec![OWNER], id, OWNER, BUYER), Ok(()));
    let info = m.get_info(id).unwrap();
    assert_eq!(info.owner, BUYER);
    assert_eq!(info.creator, CREATOR);
}

#[test]
fn buy_example_splits_royalty() {
    let mut m = FanRewardsNftMarket::new();
    let id = m.mint(&vec![CREATOR], CREATOR, OWNER, 500, b"ipfs://x".to_vec()).unwrap();
    assert_eq!(id, TokenId(1));
    let s = m.quote_buy(&vec![BUYER], id, BUYER, 1000, Some(TOKEN)).unwrap();
    assert_eq!(
        s,
        Settlement {
            payment_token: TOKEN,
            buyer: BUYER,
            creator: CREATOR,
            seller: OWNER,
            royalty: 50,
            seller_amount: 950,
        }
    );
    assert_eq!(
        s.payments(),
        vec![
            Payment { token: TOKEN, from: BUYER, to: CREATOR, amount: 50 },
            Payment { token: TOKEN, from: BUYER, to: OWNER, amount: 950 },
        ]
    );
    assert_eq!(m.buy(&vec![BUYER], id, BUYER, 1000, Some(TOKEN), true), Ok(()));
    assert_eq!(m.get_info(id).unwrap().owner, BUYER);
    assert_eq!(m.get_fan_points(BUYER), 1000);
}

#[test]
fn royalty_rounds_down_toward_seller() {
    let mut m = FanRewardsNftMarket::new();
    let id = mint_one(&mut m, 333);
    let s = m.quote_buy(&vec![BUYER], id, BUYER, 7, Some(TOKEN)).unwrap();
    assert_eq!(s.royalty, 0);
    assert_eq!(s.seller_amount, 7);
    assert_eq!(s.payments(), vec![Payment { token: TOKEN, from: BUYER, to: OWNER, amount: 7 }]);
    let s = m.quote_buy(&vec![BUYER], id, BUYER, 10001, Some(TOKEN)).unwrap();
    assert_eq!(s.royalty, 333);
    assert_eq!(s.seller_amount, 9668);
}

#[test]
fn full_royalty_pays_creator_only() {
    let mut m = FanRewardsNftMarket::new();
    let id = mint_one(&mut m, 10000);
    let s = m.quote_buy(&vec![BUYER], id, BUYER, 40, Some(TOKEN)).unwrap();
    assert_eq!(s.payments(), vec![Payment { token: TOKEN, from: BUYER, to: CREATOR, amount: 40 }]);
}

#[test]
fn buy_rejects_non_positive_price() {
    let mut m = FanRewardsNftMarket::new();
    let id = mint_one(&mut m, 500);
    assert_eq!(m.buy(&vec![BUYER], id, BUYER, 0, Some(TOKEN), true), Err(Error::InvalidPrice));
    assert_eq!(m.buy(&vec![BUYER], id, BUYER, -5, Some(TOKEN), true), Err(Error::InvalidPrice));
    assert_eq!(m.get_info(id).unwrap().owner, OWNER);
    assert_eq!(m.get_fan_points(BUYER), 0);
}

#[test]
fn buy_without_any_payment_token() {
    let mut m = FanRewardsNftMarket::new();
    let id = mint_one(&mut m, 500);
    assert_eq!(m.quote_buy(&vec![BUYER], id, BUYER, 100, None), Err(Error::InvalidPaymentToken));
    assert_eq!(m.buy(&vec![BUYER], id, BUYER, 100, None, true), Err(Error::InvalidPaymentToken));
    assert_eq!(m.get_info(id).unwrap().owner, OWNER);
}

#[test]
fn buy_uses_default_payment_token() {
    let mut m = FanRewardsNftMarket::new();
    assert_eq!(m.get_default_payment_token(), None);
    assert_eq!(m.set_default_payment_token(&vec![BUYER], ADMIN, TOKEN), Err(Error::NotAuthorized));
    assert_eq!(m.set_default_payment_token(&vec![ADMIN], ADMIN, TOKEN), Ok(()));
    assert_eq!(m.get_default_payment_token(), Some(TOKEN));
    let id = mint_one(&mut m, 500);
    let s = m.quote_buy(&vec![BUYER], id, BUYER, 100, None).unwrap();
    assert_eq!(s.payment_token, TOKEN);
    let s = m.quote_buy(&vec![BUYER], id, BUYER, 100, Some(ADMIN)).unwrap();
    assert_eq!(s.payment_token, ADMIN);
}

#[test]
fn buy_other_errors() {
    let mut m = FanRewardsNftMarket::new();
    assert_eq!(m.buy(&vec![BUYER], TokenId(1), BUYER, 10, Some(TOKEN), true), Err(Error::TokenNotFound));
    let id = mint_one(&mut m, 500);
    assert_eq!(m.buy(&vec![], id, BUYER, 10, Some(TOKEN), true), Err(Error::NotAuthorized));
    assert_eq!(m.buy(&vec![OWNER], id, OWNER, 10, Some(TOKEN), true), Err(Error::SameOwner));
    assert_eq!(m.buy(&vec![BUYER], id, BUYER, 10, Some(TOKEN), false), Err(Error::PaymentFailed));
    assert_eq!(m.get_info(id).unwrap().owner, OWNER);
    assert_eq!(m.get_fan_points(BUYER), 0);
}

#[test]
fn buy_at_largest_price_without_royalty() {
    let mut m = FanRewardsNftMarket::new();
    let id = mint_one(&mut m, 0);
    let s = m.quote_buy(&vec![BUYER], id, BUYER, i128::MAX, Some(TOKEN)).unwrap();
    assert_eq!(s.royalty, 0);
    assert_eq!(s.seller_amount, i128::MAX);
    assert_eq!(m.buy(&vec![BUYER], id, BUYER, i128::MAX, Some(TOKEN), true), Ok(()));
    assert_eq!(m.get_fan_points(BUYER), i128::MAX as u128);
}

#[test]
fn royalty_at_largest_price_does_not_overflow() {
    let mut m = FanRewardsNftMarket::new();
    let id = mint_one(&mut m, 500);
    let s = m.quote_buy(&vec![BUYER], id, BUYER, i128::MAX, Some(TOKEN)).unwrap();
    assert_eq!(s.royalty, i128::MAX / 10000 * 500 + (i128::MAX % 10000) * 500 / 10000);
    assert_eq!(s.royalty + s.seller_amount, i128::MAX);
    assert_eq!(m.buy(&vec![BUYER], id, BUYER, i128::MAX, Some(TOKEN), true), Ok(()));
    assert_eq!(m.get_info(id).unwrap().owner, BUYER);
}

#[test]
fn buy_refused_when_points_would_overflow() {
    let mut m = FanRewardsNftMarket::new();
    let id = mint_one(&mut m, 0);
    m.award_fan_points(&vec![ADMIN], ADMIN, BUYER, u128::MAX - 5).unwrap();
    assert_eq!(m.quote_buy(&vec![BUYER], id, BUYER, 6, Some(TOKEN)), Err(Error::Overflow));
    assert_eq!(m.buy(&vec![BUYER], id, BUYER, 6, Some(TOKEN), true), Err(Error::Overflow));
    assert_eq!(m.buy(&vec![BUYER], id, BUYER, 6, Some(TOKEN), false), Err(Error::Overflow));
    assert_eq!(m.get_info(id).unwrap().owner, OWNER);
    assert_eq!(m.get_fan_points(BUYER), u128::MAX - 5);
}

#[test]
fn award_order_does_not_matter() {
    let mut m1 = FanRewardsNftMarket::new();
    let mut m2 = FanRewardsNftMarket::new();
    m1.award_fan_points(&vec![ADMIN], ADMIN, BUYER, 7).unwrap();
    m1.award_fan_points(&vec![ADMIN], ADMIN, BUYER, 35).unwrap();
    m2.award_fan_points(&vec![ADMIN], ADMIN, BUYER, 35).unwrap();
    m2.award_fan_points(&vec![ADMIN], ADMIN, BUYER, 7).unwrap();
    assert_eq!(m1.get_fan_points(BUYER), 42);
    assert_eq!(m2.get_fan_points(BUYER), 42);
}

#[test]
fn award_zero_and_unseen_fan() {
    let mut m = FanRewardsNftMarket::new();
    assert_eq!(m.get_fan_points(BUYER), 0);
    assert_eq!(m.award_fan_points(&vec![ADMIN], ADMIN, BUYER, 0), Ok(()));
    assert_eq!(m.get_fan_points(BUYER), 0);
}

#[test]
fn any_authorized_granter_may_award_any_fan() {
    let mut m = FanRewardsNftMarket::new();
    assert_eq!(m.award_fan_points(&vec![BUYER], BUYER, BUYER, 9), Ok(()));
    assert_eq!(m.award_fan_points(&vec![OWNER], OWNER, BUYER, 1), Ok(()));
    assert_eq!(m.get_fan_points(BUYER), 10);
    assert_eq!(m.award_fan_points(&vec![OWNER], ADMIN, BUYER, 1), Err(Error::NotAuthorized));
}

#[test]
fn award_overflow_is_refused() {
    let mut m = FanRewardsNftMarket::new();
    m.award_fan_points(&vec![ADMIN], ADMIN, BUYER, u128::MAX).unwrap();
    assert_eq!(m.award_fan_points(&vec![ADMIN], ADMIN, BUYER, 1), Err(Error::Overflow));
    assert_eq!(m.get_fan_points(BUYER), u128::MAX);
}

#[test]
fn safe_mul_div_values() {
    assert_eq!(safe_mul_div(1000, 500, 10000), Some(50));
    assert_eq!(safe_mul_div(7, 3, 2), Some(10));
    assert_eq!(safe_mul_div(-7, 3, 2), Some(-10));
    assert_eq!(safe_mul_div(5, 5, 0), None);
    assert_eq!(safe_mul_div(i128::MAX, 2, 3), None);
    assert_eq!(safe_mul_div(i128::MIN, 1, -1), None);
}

#[test]
fn error_codes() {
    assert_eq!(Error::NotAuthorized.code(), 1);
    assert_eq!(Error::TokenNotFound.code(), 2);
    assert_eq!(Error::InvalidRoyalty.code(), 3);
    assert_eq!(Error::InvalidPrice.code(), 4);
    assert_eq!(Error::InvalidPaymentToken.code(), 5);
    assert_eq!(Error::Overflow.code(), 6);
    assert_eq!(Error::NotOwner.code(), 20);
    assert_eq!(Error::SameOwner.code(), 21);
    assert_eq!(Error::PaymentFailed.code(), 22);
}

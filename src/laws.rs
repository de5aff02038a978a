use vstd::prelude::*;
use crate::market::{
    AssetRecord, MarketState, award_outcome, awarded, buy_outcome, mint_outcome, quote_outcome,
    transfer_outcome,
};
use crate::settlement::{lemma_royalty_bounds, payments_of, royalty_of};
use crate::types::{Address, Error};

verus! {

/// A successful mint advances the counter by one, and the new id then holds
/// exactly the fields that were supplied; `get_info` reports them.
pub proof fn law_mint_then_get_info(
    s: MarketState,
    signers: Seq<Address>,
    creator: Address,
    initial_owner: Address,
    royalty_bps: u32,
    uri: Seq<u8>,
)
    requires
        s.wf(),
        mint_outcome(s, signers, creator, initial_owner, royalty_bps, uri) is Ok,
    ensures
        ({
            let t = mint_outcome(s, signers, creator, initial_owner, royalty_bps, uri)->Ok_0;
            let id = (s.next_id + 1) as u128;
            &&& t.wf()
            &&& t.next_id == s.next_id + 1
            &&& t.contains(id)
            &&& t.asset(id) == AssetRecord { owner: initial_owner, creator, royalty_bps, uri }
        }),
{
    let t = mint_outcome(s, signers, creator, initial_owner, royalty_bps, uri)->Ok_0;
    assert forall|i: int| 0 <= i < t.assets.len() implies #[trigger] t.assets[i].royalty_bps
        <= crate::market::MAX_ROYALTY_BPS by {
        if i < s.assets.len() {
            assert(t.assets[i] == s.assets[i]);
        }
    }
}

/// A purchase that goes through pays out exactly the price: the royalty is
/// the price times the rate in basis points, rounded down, and the seller
/// gets the rest. The buyer then owns the asset and has earned `price` points.
pub proof fn law_buy_conserves_price(
    s: MarketState,
    signers: Seq<Address>,
    id: u128,
    buyer: Address,
    price: i128,
    payment_token: Option<Address>,
)
    requires
        s.wf(),
        buy_outcome(s, signers, id, buyer, price, payment_token, true) is Ok,
    ensures
        ({
            let q = quote_outcome(s, signers, id, buyer, price, payment_token)->Ok_0;
            let t = buy_outcome(s, signers, id, buyer, price, payment_token, true)->Ok_0;
            &&& q.royalty + q.seller_amount == price
            &&& 0 <= q.royalty <= price
            &&& forall|i: int|
                0 <= i < payments_of(q).len() ==> #[trigger] payments_of(q)[i].from == buyer
                    && payments_of(q)[i].amount > 0
            &&& q.royalty == royalty_of(price as int, s.asset(id).royalty_bps as int)
            &&& q.creator == s.asset(id).creator
            &&& q.seller == s.asset(id).owner
            &&& t.asset(id).owner == buyer
            &&& t.points(buyer) == s.points(buyer) + price
        }),
{
    assert(s.assets[id - 1].royalty_bps <= crate::market::MAX_ROYALTY_BPS);
    lemma_royalty_bounds(price as int, s.asset(id).royalty_bps as int);
}

/// A purchase at a price of zero or less is refused with `InvalidPrice`,
/// whatever the payments did, and so changes nothing.
pub proof fn law_buy_rejects_non_positive_price(
    s: MarketState,
    signers: Seq<Address>,
    id: u128,
    buyer: Address,
    price: i128,
    payment_token: Option<Address>,
    payments_succeeded: bool,
)
    requires
        signers.contains(buyer),
        price <= 0,
    ensures
        quote_outcome(s, signers, id, buyer, price, payment_token) == Err::<crate::settlement::Settlement, Error>(
            Error::InvalidPrice,
        ),
        buy_outcome(s, signers, id, buyer, price, payment_token, payments_succeeded) == Err::<
            MarketState,
            Error,
        >(Error::InvalidPrice),
{
}

/// With no payment token named and no default set, a purchase that passes
/// the earlier checks is refused with `InvalidPaymentToken` before any
/// settlement exists, so no payment is asked for.
pub proof fn law_buy_needs_payment_token(
    s: MarketState,
    signers: Seq<Address>,
    id: u128,
    buyer: Address,
    price: i128,
    payments_succeeded: bool,
)
    requires
        s.default_payment_token is None,
        signers.contains(buyer),
        price > 0,
        s.contains(id),
        s.asset(id).owner != buyer,
    ensures
        quote_outcome(s, signers, id, buyer, price, None) == Err::<crate::settlement::Settlement, Error>(
            Error::InvalidPaymentToken,
        ),
        buy_outcome(s, signers, id, buyer, price, None, payments_succeeded) == Err::<MarketState, Error>(
            Error::InvalidPaymentToken,
        ),
{
}

/// Awarding `a` then `b` points gives the same state as `b` then `a`, and as
/// one award of `a + b`: the fan's balance grows by exactly the sum.
pub proof fn law_award_commutes(
    s: MarketState,
    signers: Seq<Address>,
    granter: Address,
    fan: Address,
    a: u128,
    b: u128,
)
    requires
        signers.contains(granter),
        s.points(fan) + a + b <= u128::MAX,
    ensures
        ({
            let sa = award_outcome(s, signers, granter, fan, a);
            let sb = award_outcome(s, signers, granter, fan, b);
            &&& sa is Ok && sb is Ok
            &&& award_outcome(sa->Ok_0, signers, granter, fan, b) == award_outcome(
                sb->Ok_0,
                signers,
                granter,
                fan,
                a,
            )
            &&& award_outcome(sa->Ok_0, signers, granter, fan, b) == award_outcome(
                s,
                signers,
                granter,
                fan,
                (a + b) as u128,
            )
            &&& award_outcome(sa->Ok_0, signers, granter, fan, b)->Ok_0.points(fan) == s.points(fan) + a
                + b
        }),
{
    let sa = awarded(s, fan, a as nat);
    let sb = awarded(s, fan, b as nat);
    let ab = awarded(sa, fan, b as nat);
    let ba = awarded(sb, fan, a as nat);
    let sum = awarded(s, fan, (a + b) as nat);
    assert(ab.fan_points =~= sum.fan_points);
    assert(ba.fan_points =~= sum.fan_points);
    assert(ab == sum);
    assert(ba == sum);
}

/// Awarding zero points changes nothing: no entry is written, not even for
/// a fan who had none.
pub proof fn law_award_zero_is_noop(s: MarketState, signers: Seq<Address>, granter: Address, fan: Address)
    requires
        signers.contains(granter),
    ensures
        award_outcome(s, signers, granter, fan, 0) == Ok::<MarketState, Error>(s),
{
}

/// Whether `t` still holds asset `id` of `s` with its creator, royalty rate
/// and uri as they were.
pub open spec fn keeps_minted_fields(s: MarketState, t: MarketState, id: u128) -> bool {
    &&& t.contains(id)
    &&& t.asset(id).creator == s.asset(id).creator
    &&& t.asset(id).royalty_bps == s.asset(id).royalty_bps
    &&& t.asset(id).uri == s.asset(id).uri
}

/// A minted asset stays minted, and its creator, royalty rate and uri never
/// change: no successful mint, transfer, purchase or award alters them.
pub proof fn law_minted_fields_are_fixed(
    s: MarketState,
    id: u128,
    signers: Seq<Address>,
    a: Address,
    b: Address,
    other: u128,
    royalty_bps: u32,
    uri: Seq<u8>,
    amount: u128,
    price: i128,
    payment_token: Option<Address>,
)
    requires
        s.contains(id),
    ensures
        mint_outcome(s, signers, a, b, royalty_bps, uri) matches Ok(t) ==> keeps_minted_fields(s, t, id),
        transfer_outcome(s, signers, other, a, b) matches Ok(t) ==> keeps_minted_fields(s, t, id),
        buy_outcome(s, signers, other, a, price, payment_token, true) matches Ok(t)
            ==> keeps_minted_fields(s, t, id),
        award_outcome(s, signers, a, b, amount) matches Ok(t) ==> keeps_minted_fields(s, t, id),
{
}

} // verus!

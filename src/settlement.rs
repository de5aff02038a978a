use vstd::prelude::*;
use vstd::arithmetic::div_mod::{lemma_fundamental_div_mod, lemma_hoist_over_denominator};
use crate::types::Address;

verus! {

/// One transfer of the payment token that a purchase asks for.
#[derive(Clone, Copy, Debug, PartialEq, Eq, Structural)]
pub struct Payment {
    pub token: Address,
    pub from: Address,
    pub to: Address,
    pub amount: i128,
}

/// The split of a purchase price between the creator's royalty and the seller.
#[derive(Clone, Copy, Debug, PartialEq, Eq, Structural)]
pub struct Settlement {
    pub payment_token: Address,
    pub buyer: Address,
    pub creator: Address,
    pub seller: Address,
    pub royalty: i128,
    pub seller_amount: i128,
}

/// The royalty on `price` at `royalty_bps` basis points, rounded down.
pub open spec fn royalty_of(price: int, royalty_bps: int) -> int {
    (price * royalty_bps) / 10000
}

/// The royalty lies between zero and the price, so the seller's share does too.
pub proof fn lemma_royalty_bounds(price: int, royalty_bps: int)
    requires
        price > 0,
        0 <= royalty_bps <= 10000,
    ensures
        0 <= price * royalty_bps <= price * 10000,
        0 <= royalty_of(price, royalty_bps) <= price,
{
    assert(0 <= price * royalty_bps <= price * 10000) by (nonlinear_arith)
        requires
            price > 0,
            0 <= royalty_bps <= 10000,
    ;
    assert((price * 10000) / 10000 == price) by (nonlinear_arith);
    assert(0 <= (price * royalty_bps) / 10000 <= (price * 10000) / 10000) by (nonlinear_arith)
        requires
            0 <= price * royalty_bps <= price * 10000,
    ;
}

/// The royalty on `price`, computed by splitting the price at 10000 so that
/// no intermediate product can leave the range of `i128`.
pub fn royalty_amount(price: i128, royalty_bps: u32) -> (r: i128)
    requires
        price > 0,
        royalty_bps <= 10000,
    ensures
        r == royalty_of(price as int, royalty_bps as int),
        0 <= r <= price,
{
    let bps = royalty_bps as i128;
    let whole = price / 10000;
    let part = price % 10000;
    proof {
        let (p, b, q, m) = (price as int, bps as int, whole as int, part as int);
        lemma_fundamental_div_mod(p, 10000);
        assert(0 <= q * b <= q * 10000) by (nonlinear_arith)
            requires
                q >= 0,
                0 <= b <= 10000,
        ;
        assert(0 <= m * b <= 9999 * 10000) by (nonlinear_arith)
            requires
                0 <= m < 10000,
                0 <= b <= 10000,
        ;
        assert(m * b + (q * b) * 10000 == p * b) by (nonlinear_arith)
            requires
                p == 10000 * q + m,
        ;
        lemma_hoist_over_denominator(m * b, q * b, 10000);
        lemma_royalty_bounds(p, b);
    }
    whole * bps + (part * bps) / 10000
}

/// The transfers that settle `s`: the royalty to the creator, then the
/// remainder to the seller, each left out where its amount is zero.
pub open spec fn payments_of(s: Settlement) -> Seq<Payment> {
    let royalty = if s.royalty > 0 {
        seq![Payment { token: s.payment_token, from: s.buyer, to: s.creator, amount: s.royalty }]
    } else {
        Seq::empty()
    };
    let rest = if s.seller_amount > 0 {
        seq![Payment { token: s.payment_token, from: s.buyer, to: s.seller, amount: s.seller_amount }]
    } else {
        Seq::empty()
    };
    royalty + rest
}

impl Settlement {
    /// The payment-token transfers to make, in order; a zero amount is a
    /// transfer that succeeds without being made.
    pub fn payments(&self) -> (r: Vec<Payment>)
        ensures
            r@ == payments_of(*self),
    {
        let mut r: Vec<Payment> = Vec::new();
        if self.royalty > 0 {
            r.push(Payment { token: self.payment_token, from: self.buyer, to: self.creator, amount: self.royalty });
        }
        if self.seller_amount > 0 {
            r.push(Payment {
                token: self.payment_token,
                from: self.buyer,
                to: self.seller,
                amount: self.seller_amount,
            });
        }
        proof {
            assert(r@ =~= payments_of(*self));
        }
        r
    }
}

} // verus!

use vstd::prelude::*;
use std::collections::HashMap;
use crate::settlement::{Settlement, lemma_royalty_bounds, royalty_amount, royalty_of};
use crate::types::{Address, Error, TokenId};

verus! {

broadcast use vstd::std_specs::hash::group_hash_axioms;

/// The largest royalty rate, in basis points: the whole price.
pub const MAX_ROYALTY_BPS: u32 = 10000;

/// What is stored of one asset.
pub struct AssetRecord {
    pub owner: Address,
    pub creator: Address,
    pub royalty_bps: u32,
    pub uri: Seq<u8>,
}

/// The state of a market, as its contracts speak of it.
pub struct MarketState {
    /// The number of assets minted so far; asset `i` is `assets[i - 1]`.
    pub next_id: nat,
    pub default_payment_token: Option<Address>,
    pub assets: Seq<AssetRecord>,
    /// Points per principal number; a missing entry counts as zero.
    pub fan_points: Map<u64, u128>,
}

impl MarketState {
    pub open spec fn contains(self, id: u128) -> bool {
        1 <= id <= self.assets.len()
    }

    pub open spec fn asset(self, id: u128) -> AssetRecord {
        self.assets[id - 1]
    }

    pub open spec fn points(self, fan: Address) -> nat {
        if self.fan_points.contains_key(fan.0) {
            self.fan_points[fan.0] as nat
        } else {
            0
        }
    }

    /// Ids in use are exactly `1..=next_id`, and every royalty rate is at
    /// most the whole price.
    pub open spec fn wf(self) -> bool {
        &&& self.next_id == self.assets.len()
        &&& forall|i: int| 0 <= i < self.assets.len() ==> #[trigger] self.assets[i].royalty_bps
            <= MAX_ROYALTY_BPS
    }
}

/// The state after `fan` earns `points`; zero points change nothing.
pub open spec fn awarded(s: MarketState, fan: Address, points: nat) -> MarketState {
    if points == 0 {
        s
    } else {
        MarketState { fan_points: s.fan_points.insert(fan.0, (s.points(fan) + points) as u128), ..s }
    }
}

pub open spec fn with_owner(s: MarketState, id: u128, owner: Address) -> MarketState {
    MarketState {
        assets: s.assets.update(id - 1, AssetRecord { owner, ..s.asset(id) }),
        ..s
    }
}

/// The outcome of a mint: the new state, or the first check that fails.
pub open spec fn mint_outcome(
    s: MarketState,
    signers: Seq<Address>,
    creator: Address,
    initial_owner: Address,
    royalty_bps: u32,
    uri: Seq<u8>,
) -> Result<MarketState, Error> {
    if !signers.contains(creator) {
        Err(Error::NotAuthorized)
    } else if royalty_bps > MAX_ROYALTY_BPS {
        Err(Error::InvalidRoyalty)
    } else if s.next_id + 1 > u128::MAX {
        Err(Error::Overflow)
    } else {
        Ok(
            MarketState {
                next_id: s.next_id + 1,
                assets: s.assets.push(AssetRecord { owner: initial_owner, creator, royalty_bps, uri }),
                ..s
            },
        )
    }
}

pub open spec fn transfer_outcome(
    s: MarketState,
    signers: Seq<Address>,
    id: u128,
    from: Address,
    to: Address,
) -> Result<MarketState, Error> {
    if !s.contains(id) {
        Err(Error::TokenNotFound)
    } else if s.asset(id).owner != from {
        Err(Error::NotOwner)
    } else if !signers.contains(from) {
        Err(Error::NotAuthorized)
    } else if from == to {
        Err(Error::SameOwner)
    } else {
        Ok(with_owner(s, id, to))
    }
}

pub open spec fn award_outcome(
    s: MarketState,
    signers: Seq<Address>,
    granter: Address,
    fan: Address,
    points: u128,
) -> Result<MarketState, Error> {
    if !signers.contains(granter) {
        Err(Error::NotAuthorized)
    } else if s.points(fan) + points > u128::MAX {
        Err(Error::Overflow)
    } else {
        Ok(awarded(s, fan, points as nat))
    }
}

/// The checks of a purchase, in the order in which they are made, and the
/// split of the price where all of them pass.
pub open spec fn quote_outcome(
    s: MarketState,
    signers: Seq<Address>,
    id: u128,
    buyer: Address,
    price: i128,
    payment_token: Option<Address>,
) -> Result<Settlement, Error> {
    if !signers.contains(buyer) {
        Err(Error::NotAuthorized)
    } else if price <= 0 {
        Err(Error::InvalidPrice)
    } else if !s.contains(id) {
        Err(Error::TokenNotFound)
    } else if s.asset(id).owner == buyer {
        Err(Error::SameOwner)
    } else if payment_token is None && s.default_payment_token is None {
        Err(Error::InvalidPaymentToken)
    } else if s.points(buyer) + price > u128::MAX {
        Err(Error::Overflow)
    } else {
        let royalty = royalty_of(price as int, s.asset(id).royalty_bps as int);
        Ok(
            Settlement {
                payment_token: match payment_token {
                    Some(t) => t,
                    None => s.default_payment_token->Some_0,
                },
                buyer,
                creator: s.asset(id).creator,
                seller: s.asset(id).owner,
                royalty: royalty as i128,
                seller_amount: (price - royalty) as i128,
            },
        )
    }
}

/// The outcome of a purchase whose payments did or did not all succeed.
pub open spec fn buy_outcome(
    s: MarketState,
    signers: Seq<Address>,
    id: u128,
    buyer: Address,
    price: i128,
    payment_token: Option<Address>,
    payments_succeeded: bool,
) -> Result<MarketState, Error> {
    match quote_outcome(s, signers, id, buyer, price, payment_token) {
        Err(e) => Err(e),
        Ok(_) => if !payments_succeeded {
            Err(Error::PaymentFailed)
        } else {
            Ok(awarded(with_owner(s, id, buyer), buyer, price as nat))
        },
    }
}

/// What `get_info` reports of one asset.
#[derive(Clone, Debug, PartialEq, Eq)]
pub struct NftInfo {
    pub token_id: TokenId,
    pub owner: Address,
    pub creator: Address,
    pub royalty_bps: u32,
    pub uri: Vec<u8>,
}

/// The asset registry, the purchase flow and the loyalty ledger. The fields
/// of asset `i` stand at index `i - 1` of the four vectors.
pub struct FanRewardsNftMarket {
    next_id: u128,
    default_payment_token: Option<Address>,
    owners: Vec<Address>,
    creators: Vec<Address>,
    royalty_bps: Vec<u32>,
    uris: Vec<Vec<u8>>,
    fan_points: HashMap<u64, u128>,
}

impl View for FanRewardsNftMarket {
    type V = MarketState;

    closed spec fn view(&self) -> MarketState {
        MarketState {
            next_id: self.next_id as nat,
            default_payment_token: self.default_payment_token,
            assets: Seq::new(
                self.owners@.len(),
                |i: int|
                    AssetRecord {
                        owner: self.owners@[i],
                        creator: self.creators@[i],
                        royalty_bps: self.royalty_bps@[i],
                        uri: self.uris@[i]@,
                    },
            ),
            fan_points: self.fan_points@,
        }
    }
}

/// Whether `info` reports asset `id`, stored as `a`.
pub open spec fn describes(info: NftInfo, id: u128, a: AssetRecord) -> bool {
    &&& info.token_id == TokenId(id)
    &&& info.owner == a.owner
    &&& info.creator == a.creator
    &&& info.royalty_bps == a.royalty_bps
    &&& info.uri@ == a.uri
}

/// Whether `p` is among the principals that authorized the call.
fn is_authorized(signers: &Vec<Address>, p: Address) -> (r: bool)
    ensures
        r == signers@.contains(p),
{
    let mut i: usize = 0;
    while i < signers.len()
        invariant
            i <= signers.len(),
            forall|j: int| 0 <= j < i ==> signers@[j] != p,
        decreases signers.len() - i,
    {
        if signers[i] == p {
            return true;
        }
        i = i + 1;
    }
    false
}

fn fan_key(fan: &Address) -> (r: u64)
    ensures
        r == fan.0,
{
    fan.0
}

impl FanRewardsNftMarket {
    /// The four field vectors have one entry per minted asset, and the state
    /// they hold is well formed.
    pub closed spec fn wf(&self) -> bool {
        &&& self.creators@.len() == self.owners@.len()
        &&& self.royalty_bps@.len() == self.owners@.len()
        &&& self.uris@.len() == self.owners@.len()
        &&& self@.wf()
    }

    /// A well-formed market has a well-formed state.
    pub proof fn lemma_view_wf(&self)
        requires
            self.wf(),
        ensures
            self@.wf(),
    {
    }

    /// An empty market: no asset minted, no default payment token, no points.
    pub fn new() -> (r: Self)
        ensures
            r.wf(),
            r@.wf(),
            r@ == (MarketState {
                next_id: 0,
                default_payment_token: None,
                assets: Seq::empty(),
                fan_points: Map::empty(),
            }),
    {
        let r = FanRewardsNftMarket {
            next_id: 0,
            default_payment_token: None,
            owners: Vec::new(),
            creators: Vec::new(),
            royalty_bps: Vec::new(),
            uris: Vec::new(),
            fan_points: HashMap::new(),
        };
        proof {
            assert(r@.assets =~= Seq::<AssetRecord>::empty());
        }
        r
    }

    /// Where asset `id` stands in the field vectors, if it was minted.
    fn asset_index(&self, id: u128) -> (r: Option<usize>)
        requires
            self.wf(),
        ensures
            match r {
                Some(i) => self@.contains(id) && i == id - 1 && i < self.owners@.len(),
                None => !self@.contains(id),
            },
    {
        if 1 <= id && id <= self.owners.len() as u128 {
            Some((id - 1) as usize)
        } else {
            None
        }
    }

    /// Advances the counter and returns the new value, the id of the next asset.
    fn next_id(&mut self) -> (r: Result<u128, Error>)
        ensures
            match r {
                Ok(id) => {
                    &&& id == old(self).next_id + 1
                    &&& final(self).next_id == id
                },
                Err(e) => e == Error::Overflow && old(self).next_id == u128::MAX && final(self).next_id
                    == old(self).next_id,
            },
            final(self).default_payment_token == old(self).default_payment_token,
            final(self).owners == old(self).owners,
            final(self).creators == old(self).creators,
            final(self).royalty_bps == old(self).royalty_bps,
            final(self).uris == old(self).uris,
            final(self).fan_points == old(self).fan_points,
    {
        match self.next_id.checked_add(1) {
            Some(next) => {
                self.next_id = next;
                Ok(next)
            },
            None => Err(Error::Overflow),
        }
    }

    /// Mints an asset for `creator`, held first by `initial_owner`.
    pub fn mint(
        &mut self,
        signers: &Vec<Address>,
        creator: Address,
        initial_owner: Address,
        royalty_bps: u32,
        uri: Vec<u8>,
    ) -> (r: Result<TokenId, Error>)
        requires
            old(self).wf(),
        ensures
            final(self).wf(),
            final(self)@.wf(),
            match mint_outcome(old(self)@, signers@, creator, initial_owner, royalty_bps, uri@) {
                Ok(s) => r == Ok::<TokenId, Error>(TokenId((old(self)@.next_id + 1) as u128))
                    && final(self)@ == s,
                Err(e) => r == Err::<TokenId, Error>(e) && final(self)@ == old(self)@,
            },
    {
        if !is_authorized(signers, creator) {
            return Err(Error::NotAuthorized);
        }
        if royalty_bps > MAX_ROYALTY_BPS {
            return Err(Error::InvalidRoyalty);
        }
        let id = match self.next_id() {
            Ok(id) => id,
            Err(e) => {
                return Err(e);
            },
        };
        let ghost uri_view = uri@;
        self.owners.push(initial_owner);
        self.creators.push(creator);
        self.royalty_bps.push(royalty_bps);
        self.uris.push(uri);
        proof {
            let rec = AssetRecord { owner: initial_owner, creator, royalty_bps, uri: uri_view };
            assert(self@.assets =~= old(self)@.assets.push(rec));
        }
        Ok(TokenId(id))
    }

    /// The stored fields of asset `token_id`.
    pub fn get_info(&self, token_id: TokenId) -> (r: Result<NftInfo, Error>)
        requires
            self.wf(),
        ensures
            match r {
                Ok(info) => self@.contains(token_id.0) && describes(info, token_id.0, self@.asset(token_id.0)),
                Err(e) => e == Error::TokenNotFound && !self@.contains(token_id.0),
            },
    {
        let i = match self.asset_index(token_id.0) {
            Some(i) => i,
            None => {
                return Err(Error::TokenNotFound);
            },
        };
        let uri = self.uris[i].clone();
        proof {
            assert(uri@ =~= self.uris@[i as int]@);
        }
        Ok(
            NftInfo {
                token_id: TokenId(token_id.0),
                owner: self.owners[i],
                creator: self.creators[i],
                royalty_bps: self.royalty_bps[i],
                uri,
            },
        )
    }


    fn set_owner(&mut self, id: u128, owner: Address)
        requires
            old(self).wf(),
            old(self)@.contains(id),
        ensures
            final(self).wf(),
            final(self)@.wf(),
            final(self)@ == with_owner(old(self)@, id, owner),
    {
        let n: usize = self.owners.len();
        proof {
            assert(id - 1 < n);
        }
        let i: usize = (id - 1) as usize;
        self.owners.set(i, owner);
        proof {
            let goal = with_owner(old(self)@, id, owner);
            assert forall|j: int| 0 <= j < self@.assets.len() implies self@.assets[j] == goal.assets[j] by {
                if j == i as int {
                    assert(self.owners@[j] == owner);
                } else {
                    assert(self.owners@[j] == old(self).owners@[j]);
                }
            }
            assert(self@.assets =~= goal.assets);
        }
    }

    /// Hands asset `token_id` from its owner `from` to `to`.
    pub fn transfer(&mut self, signers: &Vec<Address>, token_id: TokenId, from: Address, to: Address) -> (r:
        Result<(), Error>)
        requires
            old(self).wf(),
        ensures
            final(self).wf(),
            final(self)@.wf(),
            match transfer_outcome(old(self)@, signers@, token_id.0, from, to) {
                Ok(s) => r is Ok && final(self)@ == s,
                Err(e) => r == Err::<(), Error>(e) && final(self)@ == old(self)@,
            },
    {
        let i = match self.asset_index(token_id.0) {
            Some(i) => i,
            None => {
                return Err(Error::TokenNotFound);
            },
        };
        if self.owners[i] != from {
            return Err(Error::NotOwner);
        }
        if !is_authorized(signers, from) {
            return Err(Error::NotAuthorized);
        }
        if from == to {
            return Err(Error::SameOwner);
        }
        self.set_owner(token_id.0, to);
        Ok(())
    }

    /// Makes `token` the payment token of purchases that name none.
    pub fn set_default_payment_token(&mut self, signers: &Vec<Address>, admin: Address, token: Address) -> (r:
        Result<(), Error>)
        requires
            old(self).wf(),
        ensures
            final(self).wf(),
            final(self)@.wf(),
            signers@.contains(admin) ==> r is Ok && final(self)@ == (MarketState {
                default_payment_token: Some(token),
                ..old(self)@
            }),
            !signers@.contains(admin) ==> r == Err::<(), Error>(Error::NotAuthorized) && final(self)@
                == old(self)@,
    {
        if !is_authorized(signers, admin) {
            return Err(Error::NotAuthorized);
        }
        self.default_payment_token = Some(token);
        Ok(())
    }

    pub fn get_default_payment_token(&self) -> (r: Option<Address>)
        ensures
            r == self@.default_payment_token,
    {
        self.default_payment_token
    }

    /// The points that `fan` has earned; zero for a principal never seen.
    pub fn get_fan_points(&self, fan: Address) -> (r: u128)
        ensures
            r == self@.points(fan),
    {
        match self.fan_points.get(&fan_key(&fan)) {
            Some(v) => *v,
            None => 0,
        }
    }

    fn add_fan_points(&mut self, fan: Address, points: u128) -> (r: Result<(), Error>)
        requires
            old(self).wf(),
        ensures
            final(self).wf(),
            final(self)@.wf(),
            old(self)@.points(fan) + points <= u128::MAX ==> r is Ok && final(self)@ == awarded(
                old(self)@,
                fan,
                points as nat,
            ),
            old(self)@.points(fan) + points > u128::MAX ==> r == Err::<(), Error>(Error::Overflow)
                && final(self)@ == old(self)@,
    {
        if points == 0 {
            return Ok(());
        }
        let current = self.get_fan_points(fan);
        let total = match current.checked_add(points) {
            Some(t) => t,
            None => {
                return Err(Error::Overflow);
            },
        };
        self.fan_points.insert(fan_key(&fan), total);
        proof {
            assert(self@ == awarded(old(self)@, fan, points as nat));
        }
        Ok(())
    }

    /// Adds `points` to the balance of `fan`. Any principal that authorized
    /// the call may grant points to any fan.
    pub fn award_fan_points(&mut self, signers: &Vec<Address>, granter: Address, fan: Address, points: u128) -> (r:
        Result<(), Error>)
        requires
            old(self).wf(),
        ensures
            final(self).wf(),
            final(self)@.wf(),
            match award_outcome(old(self)@, signers@, granter, fan, points) {
                Ok(s) => r is Ok && final(self)@ == s,
                Err(e) => r == Err::<(), Error>(e) && final(self)@ == old(self)@,
            },
    {
        if !is_authorized(signers, granter) {
            return Err(Error::NotAuthorized);
        }
        self.add_fan_points(fan, points)
    }


    /// Runs the checks of a purchase and computes its settlement, changing
    /// nothing. On success the caller makes the transfers of
    /// `Settlement::payments` and then calls `buy`.
    pub fn quote_buy(
        &self,
        signers: &Vec<Address>,
        token_id: TokenId,
        buyer: Address,
        price: i128,
        payment_token: Option<Address>,
    ) -> (r: Result<Settlement, Error>)
        requires
            self.wf(),
        ensures
            r == quote_outcome(self@, signers@, token_id.0, buyer, price, payment_token),
    {
        if !is_authorized(signers, buyer) {
            return Err(Error::NotAuthorized);
        }
        if price <= 0 {
            return Err(Error::InvalidPrice);
        }
        let i = match self.asset_index(token_id.0) {
            Some(i) => i,
            None => {
                return Err(Error::TokenNotFound);
            },
        };
        let seller = self.owners[i];
        if seller == buyer {
            return Err(Error::SameOwner);
        }
        let creator = self.creators[i];
        let royalty_bps = self.royalty_bps[i];
        let pay_token = match payment_token {
            Some(t) => t,
            None => match self.default_payment_token {
                Some(t) => t,
                None => {
                    return Err(Error::InvalidPaymentToken);
                },
            },
        };
        proof {
            assert(self@.asset(token_id.0).royalty_bps == royalty_bps);
            assert(self@.assets[i as int].royalty_bps <= MAX_ROYALTY_BPS);
            lemma_royalty_bounds(price as int, royalty_bps as int);
        }
        if self.get_fan_points(buyer).checked_add(price as u128).is_none() {
            return Err(Error::Overflow);
        }
        let royalty = royalty_amount(price, royalty_bps);
        let seller_amount = price - royalty;
        Ok(Settlement { payment_token: pay_token, buyer, creator, seller, royalty, seller_amount })
    }

    /// Completes a purchase: where every check of `quote_buy` passes and the
    /// payments all succeeded, `buyer` becomes the owner and earns `price`
    /// points. A failed payment is `PaymentFailed`, with nothing changed.
    pub fn buy(
        &mut self,
        signers: &Vec<Address>,
        token_id: TokenId,
        buyer: Address,
        price: i128,
        payment_token: Option<Address>,
        payments_succeeded: bool,
    ) -> (r: Result<(), Error>)
        requires
            old(self).wf(),
        ensures
            final(self).wf(),
            final(self)@.wf(),
            match buy_outcome(old(self)@, signers@, token_id.0, buyer, price, payment_token, payments_succeeded) {
                Ok(s) => r is Ok && final(self)@ == s,
                Err(e) => r == Err::<(), Error>(e) && final(self)@ == old(self)@,
            },
    {
        match self.quote_buy(signers, token_id, buyer, price, payment_token) {
            Ok(_) => {},
            Err(e) => {
                return Err(e);
            },
        }
        if !payments_succeeded {
            return Err(Error::PaymentFailed);
        }
        let points = price as u128;
        self.set_owner(token_id.0, buyer);
        proof {
            assert(self@.points(buyer) == old(self)@.points(buyer));
        }
        self.add_fan_points(buyer, points)
    }

}

} // verus!

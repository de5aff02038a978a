//! A registry and marketplace of unique assets: minting, ownership transfer,
//! paid purchases that split the price between creator and seller, and a
//! loyalty-point ledger per buyer.

mod arith;
pub mod laws;
pub mod market;
mod settlement;
mod types;

pub use arith::safe_mul_div;
pub use market::{FanRewardsNftMarket, NftInfo};
pub use settlement::{Payment, Settlement};
pub use types::{Address, Error, TokenId};

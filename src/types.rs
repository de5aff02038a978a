use vstd::prelude::*;

verus! {

/// A principal: an account or a contract, identified by a number.
#[derive(Clone, Copy, Debug, PartialEq, Eq, Hash, Structural)]
pub struct Address(pub u64);

/// The identifier of a minted asset; the first asset is number 1.
#[derive(Clone, Copy, Debug, PartialEq, Eq, Hash, Structural)]
pub struct TokenId(pub u128);

/// Why an operation was refused. A refused operation changes nothing.
#[derive(Clone, Copy, Debug, PartialEq, Eq, Structural)]
pub enum Error {
    NotAuthorized,
    TokenNotFound,
    InvalidRoyalty,
    InvalidPrice,
    InvalidPaymentToken,
    Overflow,
    NotOwner,
    SameOwner,
    PaymentFailed,
}

impl Error {
    /// The numeric code of the error, as the contract's callers see it.
    pub fn code(&self) -> (r: u32)
        ensures
            r == error_code(*self),
    {
        match self {
            Error::NotAuthorized => 1,
            Error::TokenNotFound => 2,
            Error::InvalidRoyalty => 3,
            Error::InvalidPrice => 4,
            Error::InvalidPaymentToken => 5,
            Error::Overflow => 6,
            Error::NotOwner => 20,
            Error::SameOwner => 21,
            Error::PaymentFailed => 22,
        }
    }
}

pub open spec fn error_code(e: Error) -> u32 {
    match e {
        Error::NotAuthorized => 1,
        Error::TokenNotFound => 2,
        Error::InvalidRoyalty => 3,
        Error::InvalidPrice => 4,
        Error::InvalidPaymentToken => 5,
        Error::Overflow => 6,
        Error::NotOwner => 20,
        Error::SameOwner => 21,
        Error::PaymentFailed => 22,
    }
}

} // verus!

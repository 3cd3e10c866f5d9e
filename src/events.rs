use vstd::prelude::*;

use crate::address::Address;
use crate::auction::Bid;

verus! {

/// Selector of a token contract's `transfer` action.
pub const TOKEN_TRANSFER: u32 = 0x01;

/// Selector of a token contract's `transfer_from` action.
pub const TOKEN_TRANSFER_FROM: u32 = 0x03;

/// Selector of the callback that confirms the sale tokens arrived.
pub const START_CALLBACK: u32 = 0x02;

/// Selector of the callback that confirms a bid's tokens arrived.
pub const BID_CALLBACK: u32 = 0x04;

/// A transfer that the contract asks a token contract to perform.
#[derive(Clone, Copy, Debug, PartialEq, Eq)]
pub enum TokenCall {
    /// Pull `amount` from `from` to `to`, on the allowance `from` gave.
    TransferFrom { token: Address, from: Address, to: Address, amount: u128 },
    /// Push `amount` from the contract to `to`.
    Transfer { token: Address, to: Address, amount: u128 },
}

impl TokenCall {
    /// The token contract action this request invokes.
    pub fn shortname(&self) -> (r: u32)
        ensures
            r == (match *self {
                TokenCall::TransferFrom { .. } => TOKEN_TRANSFER_FROM,
                TokenCall::Transfer { .. } => TOKEN_TRANSFER,
            }),
    {
        match self {
            TokenCall::TransferFrom { .. } => TOKEN_TRANSFER_FROM,
            TokenCall::Transfer { .. } => TOKEN_TRANSFER,
        }
    }
}

/// What the host must run once the transfers of a group are done, with the
/// context it echoes back.
#[derive(Clone, Copy, Debug, PartialEq, Eq)]
pub enum Continuation {
    StartConfirmed,
    BidConfirmed { bid: Bid },
}

impl Continuation {
    /// The callback selector this continuation is delivered to.
    pub fn shortname(&self) -> (r: u32)
        ensures
            r == (match *self {
                Continuation::StartConfirmed => START_CALLBACK,
                Continuation::BidConfirmed { .. } => BID_CALLBACK,
            }),
    {
        match self {
            Continuation::StartConfirmed => START_CALLBACK,
            Continuation::BidConfirmed { .. } => BID_CALLBACK,
        }
    }
}

/// The transfers one invocation asks for, delivered in order, and the
/// continuation bound to them.
#[derive(Clone, Debug)]
pub struct EventGroup {
    pub calls: Vec<TokenCall>,
    pub callback: Option<Continuation>,
}

} // verus!

//! An English auction that exchanges a sale token for a bidding token.
//!
//! Token movement happens outside the contract: an action only asks for a
//! transfer, and a later callback reports whether it went through. The
//! library holds the state machine that decides every step, and the ledger
//! of amounts that participants may withdraw.
pub mod address;
pub mod auction;
pub mod events;
pub mod laws;
pub mod ledger;

pub use address::{Address, AddressType};
pub use auction::{
    bid, bid_callback, cancel, claim, execute, initialize, start, start_callback,
    AuctionContractState, AuctionError, AuctionStatus, Bid, CallbackContext, ContractContext,
    Invocation,
};
pub use events::{Continuation, EventGroup, TokenCall};
pub use ledger::{ClaimMap, TokenClaim};

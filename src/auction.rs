use vstd::prelude::*;

use crate::address::{same_address, Address, AddressType};
use crate::events::{Continuation, EventGroup, TokenCall};
use crate::ledger::{
    claim_of, credit_fits, credited, has_entry, keys_unique, lemma_credited_unique,
    lemma_settled_unique, settled, ClaimMap, TokenClaim,
};

verus! {

/// Milliseconds in an hour.
pub const MILLIS_PER_HOUR: i64 = 3600000;

/// A bid: who offers, and how many bidding tokens.
#[derive(Clone, Copy, Debug, PartialEq, Eq)]
pub struct Bid {
    pub bidder: Address,
    pub amount: u128,
}

/// Where the auction stands in its lifecycle.
#[derive(Clone, Copy, Debug, PartialEq, Eq, Structural)]
pub enum AuctionStatus {
    Creation,
    Bidding,
    Ended,
    Cancelled,
}

/// Why an invocation was rejected. A rejected invocation has no effect.
#[derive(Clone, Copy, Debug, PartialEq, Eq, Structural)]
pub enum AuctionError {
    /// Wrong caller, wrong status, wrong time, or invalid creation arguments.
    PreconditionViolation,
    /// The transfer that a callback reports on did not go through.
    TransferDenied,
    /// A ledger amount would not fit in `u128`.
    AmountOverflow,
}

/// What the host tells an invocation: who calls, which contract runs, and
/// the current time in milliseconds.
#[derive(Clone, Copy, Debug, PartialEq, Eq)]
pub struct ContractContext {
    pub contract_address: Address,
    pub sender: Address,
    pub block_production_time: i64,
}

/// The verdict the host delivers to a callback.
#[derive(Clone, Copy, Debug, PartialEq, Eq)]
pub struct CallbackContext {
    pub success: bool,
}

/// The whole persisted state of one auction.
#[derive(Clone, Debug)]
pub struct AuctionContractState {
    pub contract_owner: Address,
    pub start_time_millis: i64,
    pub end_time_millis: i64,
    pub token_amount_for_sale: u128,
    pub token_for_sale: Address,
    pub token_for_bidding: Address,
    pub highest_bidder: Bid,
    pub reserve_price: u128,
    pub min_increment: u128,
    pub claim_map: ClaimMap,
    pub status: AuctionStatus,
}

/// What an action returns: the new state and the transfers it asks for.
pub type Invocation = (AuctionContractState, Vec<EventGroup>);

impl AuctionContractState {
    /// The ledger holds one entry per address.
    pub open spec fn wf(&self) -> bool {
        keys_unique(self.claim_map@)
    }

    /// Credits `additional_claim` to `bidder`. Fails where an amount would
    /// overflow; the rest of the state is left alone either way.
    fn add_to_claim_map(&mut self, bidder: Address, additional_claim: TokenClaim) -> (r: bool)
        requires
            old(self).wf(),
        ensures
            r == credit_fits(old(self).claim_map@, bidder, additional_claim),
            r ==> final(self).claim_map@ == credited(old(self).claim_map@, bidder, additional_claim),
            !r ==> final(self).claim_map@ == old(self).claim_map@,
            final(self).wf(),
            same_terms(*old(self), *final(self)),
            final(self).highest_bidder == old(self).highest_bidder,
            final(self).status == old(self).status,
    {
        proof {
            lemma_credited_unique(self.claim_map@, bidder, additional_claim);
        }
        self.claim_map.add(bidder, additional_claim)
    }
}

/// The two states agree on everything fixed at creation.
pub open spec fn same_terms(a: AuctionContractState, b: AuctionContractState) -> bool {
    &&& a.contract_owner == b.contract_owner
    &&& a.start_time_millis == b.start_time_millis
    &&& a.end_time_millis == b.end_time_millis
    &&& a.token_amount_for_sale == b.token_amount_for_sale
    &&& a.token_for_sale == b.token_for_sale
    &&& a.token_for_bidding == b.token_for_bidding
    &&& a.reserve_price == b.reserve_price
    &&& a.min_increment == b.min_increment
}

/// `post` keeps the terms of `pre`, with the given ledger, status and lead.
pub open spec fn ledger_step(
    pre: AuctionContractState,
    post: AuctionContractState,
    ledger: Seq<(Address, TokenClaim)>,
    status: AuctionStatus,
    highest: Bid,
) -> bool {
    &&& post.wf()
    &&& same_terms(pre, post)
    &&& post.claim_map@ == ledger
    &&& post.status == status
    &&& post.highest_bidder == highest
}

/// The claim that credits `amount` bidding tokens.
pub open spec fn bidding_claim(amount: u128) -> TokenClaim {
    TokenClaim { tokens_for_bidding: amount, tokens_for_sale: 0 }
}

/// The claim that credits `amount` sale tokens.
pub open spec fn sale_claim(amount: u128) -> TokenClaim {
    TokenClaim { tokens_for_bidding: 0, tokens_for_sale: amount }
}

/// `r` is exactly the error `e`.
pub open spec fn rejected<T>(r: Result<T, AuctionError>, e: AuctionError) -> bool {
    r == Err::<T, AuctionError>(e)
}

/// What `initialize` returns.
pub open spec fn initialize_outcome(
    ctx: ContractContext,
    token_amount_for_sale: u128,
    token_for_sale: Address,
    token_for_bidding: Address,
    reserve_price: u128,
    min_increment: u128,
    auction_duration_hours: u32,
    r: Result<Invocation, AuctionError>,
) -> bool {
    let now = ctx.block_production_time as int;
    let end = now + auction_duration_hours * MILLIS_PER_HOUR;
    if token_for_sale.address_type != AddressType::PublicContract
        || token_for_bidding.address_type != AddressType::PublicContract
        || auction_duration_hours == 0 || end > i64::MAX {
        rejected(r, AuctionError::PreconditionViolation)
    } else {
        match r {
            Ok(out) => {
                let s = out.0;
                &&& out.1@.len() == 0
                &&& s.wf()
                &&& s.contract_owner == ctx.sender
                &&& s.start_time_millis == now
                &&& s.end_time_millis == end
                &&& s.token_amount_for_sale == token_amount_for_sale
                &&& s.token_for_sale == token_for_sale
                &&& s.token_for_bidding == token_for_bidding
                &&& s.highest_bidder == (Bid { bidder: ctx.sender, amount: 0 })
                &&& s.reserve_price == reserve_price
                &&& s.min_increment == min_increment
                &&& s.claim_map@ == Seq::<(Address, TokenClaim)>::empty()
                &&& s.status == AuctionStatus::Creation
            },
            Err(_) => false,
        }
    }
}

/// What `start` returns.
pub open spec fn start_outcome(
    ctx: ContractContext,
    pre: AuctionContractState,
    r: Result<Invocation, AuctionError>,
) -> bool {
    if ctx.sender != pre.contract_owner || pre.status != AuctionStatus::Creation {
        rejected(r, AuctionError::PreconditionViolation)
    } else {
        match r {
            Ok(out) => {
                &&& out.0 == pre
                &&& out.1@.len() == 1
                &&& out.1@[0].calls@ == seq![
                    TokenCall::TransferFrom {
                        token: pre.token_for_sale,
                        from: ctx.sender,
                        to: ctx.contract_address,
                        amount: pre.token_amount_for_sale,
                    },
                ]
                &&& out.1@[0].callback == Some(Continuation::StartConfirmed)
            },
            Err(_) => false,
        }
    }
}

/// What `start_callback` returns.
pub open spec fn start_callback_outcome(
    cb: CallbackContext,
    pre: AuctionContractState,
    r: Result<Invocation, AuctionError>,
) -> bool {
    if !cb.success {
        rejected(r, AuctionError::TransferDenied)
    } else if pre.status != AuctionStatus::Creation {
        rejected(r, AuctionError::PreconditionViolation)
    } else {
        match r {
            Ok(out) => {
                &&& out.1@.len() == 0
                &&& ledger_step(
                    pre,
                    out.0,
                    pre.claim_map@,
                    AuctionStatus::Bidding,
                    pre.highest_bidder,
                )
            },
            Err(_) => false,
        }
    }
}

/// What `bid` returns: the state as it was, and a request to pull the bid's
/// tokens whose confirmation carries the bid.
pub open spec fn bid_outcome(
    ctx: ContractContext,
    pre: AuctionContractState,
    bid_amount: u128,
    r: Invocation,
) -> bool {
    &&& r.0 == pre
    &&& r.1@.len() == 1
    &&& r.1@[0].calls@ == seq![
        TokenCall::TransferFrom {
            token: pre.token_for_bidding,
            from: ctx.sender,
            to: ctx.contract_address,
            amount: bid_amount,
        },
    ]
    &&& r.1@[0].callback == Some(
        Continuation::BidConfirmed { bid: Bid { bidder: ctx.sender, amount: bid_amount } },
    )
}

/// A confirmed bid takes the lead: the auction is open, and the bid is
/// strictly above the current lead, meets the current lead plus the minimum
/// increment, and meets the reserve price. An equal bid never wins.
pub open spec fn bid_wins(now: i64, pre: AuctionContractState, bid: Bid) -> bool {
    &&& pre.status == AuctionStatus::Bidding
    &&& now < pre.end_time_millis
    &&& bid.amount > pre.highest_bidder.amount
    &&& bid.amount >= pre.highest_bidder.amount + pre.min_increment
    &&& bid.amount >= pre.reserve_price
}

/// What `bid_callback` returns. A winning bid refunds the previous lead and
/// takes its place; any other confirmed bid is refunded to its bidder.
pub open spec fn bid_callback_outcome(
    ctx: ContractContext,
    cb: CallbackContext,
    pre: AuctionContractState,
    bid: Bid,
    r: Result<Invocation, AuctionError>,
) -> bool {
    let wins = bid_wins(ctx.block_production_time, pre, bid);
    let refunded = if wins {
        pre.highest_bidder
    } else {
        bid
    };
    let lead = if wins {
        bid
    } else {
        pre.highest_bidder
    };
    let refund = bidding_claim(refunded.amount);
    if !cb.success {
        rejected(r, AuctionError::TransferDenied)
    } else if !credit_fits(pre.claim_map@, refunded.bidder, refund) {
        rejected(r, AuctionError::AmountOverflow)
    } else {
        match r {
            Ok(out) => {
                &&& out.1@.len() == 0
                &&& ledger_step(
                    pre,
                    out.0,
                    credited(pre.claim_map@, refunded.bidder, refund),
                    pre.status,
                    lead,
                )
            },
            Err(_) => false,
        }
    }
}

/// The payouts for claim `c` of `to`: bidding tokens first, then sale
/// tokens, each only where it is positive.
pub open spec fn claim_calls(pre: AuctionContractState, to: Address, c: TokenClaim) -> Seq<
    TokenCall,
> {
    let bidding = if c.tokens_for_bidding > 0 {
        seq![
            TokenCall::Transfer {
                token: pre.token_for_bidding,
                to: to,
                amount: c.tokens_for_bidding,
            },
        ]
    } else {
        Seq::empty()
    };
    let sale = if c.tokens_for_sale > 0 {
        seq![TokenCall::Transfer { token: pre.token_for_sale, to: to, amount: c.tokens_for_sale }]
    } else {
        Seq::empty()
    };
    bidding + sale
}

/// What `claim` returns: nothing happens for a caller without an entry;
/// otherwise its amounts are paid out and its entry is zeroed.
pub open spec fn claim_outcome(ctx: ContractContext, pre: AuctionContractState, r: Invocation) -> bool {
    if !has_entry(pre.claim_map@, ctx.sender) {
        &&& r.0 == pre
        &&& r.1@.len() == 0
    } else {
        &&& r.1@.len() == 1
        &&& r.1@[0].calls@ == claim_calls(pre, ctx.sender, claim_of(pre.claim_map@, ctx.sender))
        &&& r.1@[0].callback == None::<Continuation>
        &&& ledger_step(
            pre,
            r.0,
            settled(pre.claim_map@, ctx.sender),
            pre.status,
            pre.highest_bidder,
        )
    }
}

/// What `execute` returns: once the window has closed, the owner is owed
/// the winning amount and the winner the tokens for sale.
pub open spec fn execute_outcome(
    ctx: ContractContext,
    pre: AuctionContractState,
    r: Result<Invocation, AuctionError>,
) -> bool {
    let lead = pre.highest_bidder;
    let first = bidding_claim(lead.amount);
    let second = sale_claim(pre.token_amount_for_sale);
    let after_first = credited(pre.claim_map@, pre.contract_owner, first);
    if ctx.block_production_time < pre.end_time_millis || pre.status != AuctionStatus::Bidding {
        rejected(r, AuctionError::PreconditionViolation)
    } else if !credit_fits(pre.claim_map@, pre.contract_owner, first) || !credit_fits(
        after_first,
        lead.bidder,
        second,
    ) {
        rejected(r, AuctionError::AmountOverflow)
    } else {
        match r {
            Ok(out) => {
                &&& out.1@.len() == 0
                &&& ledger_step(
                    pre,
                    out.0,
                    credited(after_first, lead.bidder, second),
                    AuctionStatus::Ended,
                    lead,
                )
            },
            Err(_) => false,
        }
    }
}

/// What `cancel` returns: before the window closes, the owner may call the
/// auction off; the lead is refunded and the owner gets the sale tokens back.
pub open spec fn cancel_outcome(
    ctx: ContractContext,
    pre: AuctionContractState,
    r: Result<Invocation, AuctionError>,
) -> bool {
    let lead = pre.highest_bidder;
    let first = bidding_claim(lead.amount);
    let second = sale_claim(pre.token_amount_for_sale);
    let after_first = credited(pre.claim_map@, lead.bidder, first);
    if ctx.sender != pre.contract_owner || ctx.block_production_time >= pre.end_time_millis
        || pre.status != AuctionStatus::Bidding {
        rejected(r, AuctionError::PreconditionViolation)
    } else if !credit_fits(pre.claim_map@, lead.bidder, first) || !credit_fits(
        after_first,
        pre.contract_owner,
        second,
    ) {
        rejected(r, AuctionError::AmountOverflow)
    } else {
        match r {
            Ok(out) => {
                &&& out.1@.len() == 0
                &&& ledger_step(
                    pre,
                    out.0,
                    credited(after_first, pre.contract_owner, second),
                    AuctionStatus::Cancelled,
                    lead,
                )
            },
            Err(_) => false,
        }
    }
}

fn one_call(call: TokenCall) -> (r: Vec<TokenCall>)
    ensures
        r@ == seq![call],
{
    let mut r: Vec<TokenCall> = Vec::new();
    r.push(call);
    proof {
        assert(r@ =~= seq![call]);
    }
    r
}

fn one_group(group: EventGroup) -> (r: Vec<EventGroup>)
    ensures
        r@ == seq![group],
{
    let mut r: Vec<EventGroup> = Vec::new();
    r.push(group);
    proof {
        assert(r@ =~= seq![group]);
    }
    r
}

/// Creates an auction owned by the caller, in status `Creation`, open from
/// now for `auction_duration_hours`. Both tokens must be public contracts,
/// and the auction must last at least an hour, so that it ends after it starts.
pub fn initialize(
    ctx: ContractContext,
    token_amount_for_sale: u128,
    token_for_sale: Address,
    token_for_bidding: Address,
    reserve_price: u128,
    min_increment: u128,
    auction_duration_hours: u32,
) -> (r: Result<Invocation, AuctionError>)
    ensures
        initialize_outcome(
            ctx,
            token_amount_for_sale,
            token_for_sale,
            token_for_bidding,
            reserve_price,
            min_increment,
            auction_duration_hours,
            r,
        ),
{
    if token_for_sale.address_type != AddressType::PublicContract {
        return Err(AuctionError::PreconditionViolation);
    }
    if token_for_bidding.address_type != AddressType::PublicContract {
        return Err(AuctionError::PreconditionViolation);
    }
    if auction_duration_hours == 0 {
        return Err(AuctionError::PreconditionViolation);
    }
    let duration_millis: i64 = (auction_duration_hours as i64) * MILLIS_PER_HOUR;
    let end_time_millis = match ctx.block_production_time.checked_add(duration_millis) {
        Some(end) => end,
        None => return Err(AuctionError::PreconditionViolation),
    };
    let state = AuctionContractState {
        contract_owner: ctx.sender,
        start_time_millis: ctx.block_production_time,
        end_time_millis,
        token_amount_for_sale,
        token_for_sale,
        token_for_bidding,
        highest_bidder: Bid { bidder: ctx.sender, amount: 0 },
        reserve_price,
        min_increment,
        claim_map: ClaimMap::new(),
        status: AuctionStatus::Creation,
    };
    Ok((state, Vec::new()))
}

/// The owner asks for the sale tokens to be pulled into the contract; the
/// auction opens once that transfer is confirmed.
pub fn start(context: ContractContext, state: AuctionContractState) -> (r: Result<
    Invocation,
    AuctionError,
>)
    ensures
        start_outcome(context, state, r),
{
    if !same_address(&context.sender, &state.contract_owner) {
        return Err(AuctionError::PreconditionViolation);
    }
    if state.status != AuctionStatus::Creation {
        return Err(AuctionError::PreconditionViolation);
    }
    let call = TokenCall::TransferFrom {
        token: state.token_for_sale,
        from: context.sender,
        to: context.contract_address,
        amount: state.token_amount_for_sale,
    };
    let group = EventGroup { calls: one_call(call), callback: Some(Continuation::StartConfirmed) };
    Ok((state, one_group(group)))
}

/// Opens the auction for bids once the sale tokens have arrived.
pub fn start_callback(
    ctx: ContractContext,
    callback_ctx: CallbackContext,
    state: AuctionContractState,
) -> (r: Result<Invocation, AuctionError>)
    requires
        state.wf(),
    ensures
        start_callback_outcome(callback_ctx, state, r),
{
    if !callback_ctx.success {
        return Err(AuctionError::TransferDenied);
    }
    if state.status != AuctionStatus::Creation {
        return Err(AuctionError::PreconditionViolation);
    }
    let mut new_state = state;
    new_state.status = AuctionStatus::Bidding;
    Ok((new_state, Vec::new()))
}

/// Asks for the bid's tokens to be pulled from the caller. The bid is only
/// weighed once the transfer is confirmed.
pub fn bid(context: ContractContext, state: AuctionContractState, bid_amount: u128) -> (r: Invocation)
    ensures
        bid_outcome(context, state, bid_amount, r),
{
    let bid = Bid { bidder: context.sender, amount: bid_amount };
    let call = TokenCall::TransferFrom {
        token: state.token_for_bidding,
        from: context.sender,
        to: context.contract_address,
        amount: bid_amount,
    };
    let group = EventGroup {
        calls: one_call(call),
        callback: Some(Continuation::BidConfirmed { bid }),
    };
    (state, one_group(group))
}

/// Weighs a bid whose tokens have arrived: a winning bid takes the lead and
/// the previous lead is refunded; any other bid is refunded.
pub fn bid_callback(
    ctx: ContractContext,
    callback_ctx: CallbackContext,
    state: AuctionContractState,
    bid: Bid,
) -> (r: Result<Invocation, AuctionError>)
    requires
        state.wf(),
    ensures
        bid_callback_outcome(ctx, callback_ctx, state, bid, r),
{
    if !callback_ctx.success {
        return Err(AuctionError::TransferDenied);
    }
    let mut new_state = state;
    let clears_increment = match new_state.highest_bidder.amount.checked_add(
        new_state.min_increment,
    ) {
        Some(needed) => bid.amount >= needed,
        None => false,
    };
    let wins = new_state.status == AuctionStatus::Bidding && ctx.block_production_time
        < new_state.end_time_millis && bid.amount > new_state.highest_bidder.amount
        && clears_increment && bid.amount >= new_state.reserve_price;
    if !wins {
        if !new_state.add_to_claim_map(bid.bidder, TokenClaim { tokens_for_bidding: bid.amount, tokens_for_sale: 0 }) {
            return Err(AuctionError::AmountOverflow);
        }
    } else {
        let prev_highest_bidder = new_state.highest_bidder;
        if !new_state.add_to_claim_map(
            prev_highest_bidder.bidder,
            TokenClaim { tokens_for_bidding: prev_highest_bidder.amount, tokens_for_sale: 0 },
        ) {
            return Err(AuctionError::AmountOverflow);
        }
        new_state.highest_bidder = bid;
    }
    Ok((new_state, Vec::new()))
}

/// Pays out what the caller may withdraw and zeroes its entry. A caller
/// without an entry gets nothing and changes nothing.
pub fn claim(context: ContractContext, state: AuctionContractState) -> (r: Invocation)
    requires
        state.wf(),
    ensures
        claim_outcome(context, state, r),
{
    let mut new_state = state;
    match new_state.claim_map.get(&context.sender) {
        None => (new_state, Vec::new()),
        Some(claimable) => {
            let mut calls: Vec<TokenCall> = Vec::new();
            if claimable.tokens_for_bidding > 0 {
                calls.push(
                    TokenCall::Transfer {
                        token: new_state.token_for_bidding,
                        to: context.sender,
                        amount: claimable.tokens_for_bidding,
                    },
                );
            }
            if claimable.tokens_for_sale > 0 {
                calls.push(
                    TokenCall::Transfer {
                        token: new_state.token_for_sale,
                        to: context.sender,
                        amount: claimable.tokens_for_sale,
                    },
                );
            }
            proof {
                lemma_settled_unique(new_state.claim_map@, context.sender);
                assert(calls@ =~= claim_calls(new_state, context.sender, claimable));
            }
            new_state.claim_map.reset(context.sender);
            (new_state, one_group(EventGroup { calls, callback: None }))
        },
    }
}

/// Settles the auction once its window has closed: the owner is owed the
/// winning amount and the winner the tokens for sale. Anyone may call it.
pub fn execute(context: ContractContext, state: AuctionContractState) -> (r: Result<
    Invocation,
    AuctionError,
>)
    requires
        state.wf(),
    ensures
        execute_outcome(context, state, r),
{
    if context.block_production_time < state.end_time_millis {
        return Err(AuctionError::PreconditionViolation);
    }
    if state.status != AuctionStatus::Bidding {
        return Err(AuctionError::PreconditionViolation);
    }
    let mut new_state = state;
    new_state.status = AuctionStatus::Ended;
    let owner = new_state.contract_owner;
    let lead = new_state.highest_bidder;
    let sale_amount = new_state.token_amount_for_sale;
    if !new_state.add_to_claim_map(owner, TokenClaim { tokens_for_bidding: lead.amount, tokens_for_sale: 0 }) {
        return Err(AuctionError::AmountOverflow);
    }
    if !new_state.add_to_claim_map(lead.bidder, TokenClaim { tokens_for_bidding: 0, tokens_for_sale: sale_amount }) {
        return Err(AuctionError::AmountOverflow);
    }
    Ok((new_state, Vec::new()))
}

/// Calls the auction off before its window closes; only the owner may. The
/// lead is refunded and the owner gets the tokens for sale back.
pub fn cancel(context: ContractContext, state: AuctionContractState) -> (r: Result<
    Invocation,
    AuctionError,
>)
    requires
        state.wf(),
    ensures
        cancel_outcome(context, state, r),
{
    if !same_address(&context.sender, &state.contract_owner) {
        return Err(AuctionError::PreconditionViolation);
    }
    if context.block_production_time >= state.end_time_millis {
        return Err(AuctionError::PreconditionViolation);
    }
    if state.status != AuctionStatus::Bidding {
        return Err(AuctionError::PreconditionViolation);
    }
    let mut new_state = state;
    new_state.status = AuctionStatus::Cancelled;
    let owner = new_state.contract_owner;
    let lead = new_state.highest_bidder;
    let sale_amount = new_state.token_amount_for_sale;
    if !new_state.add_to_claim_map(lead.bidder, TokenClaim { tokens_for_bidding: lead.amount, tokens_for_sale: 0 }) {
        return Err(AuctionError::AmountOverflow);
    }
    if !new_state.add_to_claim_map(owner, TokenClaim { tokens_for_bidding: 0, tokens_for_sale: sale_amount }) {
        return Err(AuctionError::AmountOverflow);
    }
    Ok((new_state, Vec::new()))
}

} // verus!

use vstd::prelude::*;

use crate::address::Address;
use crate::auction::{
    bid_callback_outcome, cancel_outcome, claim_outcome, execute_outcome, start_callback_outcome,
    start_outcome, AuctionContractState, AuctionError, AuctionStatus, Bid, CallbackContext,
    ContractContext, Invocation, bid_wins, bidding_claim, claim_calls,
};
use crate::events::EventGroup;
use crate::ledger::{
    bidding_total, claim_of, entry_index, has_entry, lemma_credited_totals, lemma_settled_claims,
    settled, zero_claim,
};

verus! {

/// A confirmed bid never lowers the lead. Where the lead changes, the new
/// lead is that bid, strictly above the previous lead, and it clears both the
/// previous lead plus the minimum increment and the reserve price.
pub proof fn lemma_bid_callback_lead(
    ctx: ContractContext,
    cb: CallbackContext,
    pre: AuctionContractState,
    bid: Bid,
    post: AuctionContractState,
    evs: Vec<EventGroup>,
)
    requires
        bid_callback_outcome(ctx, cb, pre, bid, Ok((post, evs))),
    ensures
        post.highest_bidder.amount >= pre.highest_bidder.amount,
        post.highest_bidder != pre.highest_bidder ==> {
            &&& post.highest_bidder == bid
            &&& bid.amount > pre.highest_bidder.amount
            &&& bid.amount >= pre.highest_bidder.amount + pre.min_increment
            &&& bid.amount >= pre.reserve_price
        },
{
}

/// One invocation that succeeded takes the auction from `pre` to `post`.
pub open spec fn auction_step(pre: AuctionContractState, post: AuctionContractState) -> bool {
    ||| exists|ctx: ContractContext, evs: Vec<EventGroup>|
        #[trigger] start_outcome(ctx, pre, Ok((post, evs)))
    ||| exists|cb: CallbackContext, evs: Vec<EventGroup>|
        #[trigger] start_callback_outcome(cb, pre, Ok((post, evs)))
    ||| exists|ctx: ContractContext, cb: CallbackContext, bid: Bid, evs: Vec<EventGroup>|
        #[trigger] bid_callback_outcome(ctx, cb, pre, bid, Ok((post, evs)))
    ||| exists|ctx: ContractContext, evs: Vec<EventGroup>|
        #[trigger] claim_outcome(ctx, pre, (post, evs))
    ||| exists|ctx: ContractContext, evs: Vec<EventGroup>|
        #[trigger] execute_outcome(ctx, pre, Ok((post, evs)))
    ||| exists|ctx: ContractContext, evs: Vec<EventGroup>|
        #[trigger] cancel_outcome(ctx, pre, Ok((post, evs)))
    ||| post == pre
}

/// No invocation lowers the lead.
pub proof fn lemma_step_keeps_lead(pre: AuctionContractState, post: AuctionContractState)
    requires
        auction_step(pre, post),
    ensures
        post.highest_bidder.amount >= pre.highest_bidder.amount,
{
    if exists|ctx: ContractContext, cb: CallbackContext, bid: Bid, evs: Vec<EventGroup>|
        #[trigger] bid_callback_outcome(ctx, cb, pre, bid, Ok((post, evs))) {
        let (ctx, cb, bid, evs) = choose|
            ctx: ContractContext,
            cb: CallbackContext,
            bid: Bid,
            evs: Vec<EventGroup>,
        | #[trigger] bid_callback_outcome(ctx, cb, pre, bid, Ok((post, evs)));
        lemma_bid_callback_lead(ctx, cb, pre, bid, post, evs);
    }
}

/// Over any run of invocations that succeeded, the lead amount never falls.
pub proof fn lemma_lead_never_falls(states: Seq<AuctionContractState>, i: int, j: int)
    requires
        forall|k: int| 0 <= k < states.len() - 1 ==> auction_step(states[k], #[trigger] states[k + 1]),
        0 <= i <= j < states.len(),
    ensures
        states[i].highest_bidder.amount <= states[j].highest_bidder.amount,
    decreases j - i,
{
    if i < j {
        lemma_lead_never_falls(states, i, j - 1);
        assert(auction_step(states[j - 1], states[(j - 1) + 1]));
        lemma_step_keeps_lead(states[j - 1], states[j]);
    }
}

/// Position of a status in the lifecycle; the two outcomes share the last.
pub open spec fn status_rank(status: AuctionStatus) -> int {
    match status {
        AuctionStatus::Creation => 0,
        AuctionStatus::Bidding => 1,
        AuctionStatus::Ended => 2,
        AuctionStatus::Cancelled => 2,
    }
}

/// The lifecycle only moves forward, and `Ended` and `Cancelled` are final:
/// no invocation that succeeds leaves either of them.
pub proof fn lemma_status_moves_forward(pre: AuctionContractState, post: AuctionContractState)
    requires
        auction_step(pre, post),
    ensures
        status_rank(post.status) >= status_rank(pre.status),
        pre.status == AuctionStatus::Ended || pre.status == AuctionStatus::Cancelled ==> post.status
            == pre.status,
{
}

/// A confirmed bid moves bidding tokens only between the lead and the
/// ledger: the ledger's bidding total plus the lead grows by the bid's amount.
pub proof fn lemma_bid_callback_conserves(
    ctx: ContractContext,
    cb: CallbackContext,
    pre: AuctionContractState,
    bid: Bid,
    post: AuctionContractState,
    evs: Vec<EventGroup>,
)
    requires
        bid_callback_outcome(ctx, cb, pre, bid, Ok((post, evs))),
    ensures
        bidding_total(post.claim_map@) + post.highest_bidder.amount == bidding_total(
            pre.claim_map@,
        ) + pre.highest_bidder.amount + bid.amount,
{
    if bid_wins(ctx.block_production_time, pre, bid) {
        lemma_credited_totals(
            pre.claim_map@,
            pre.highest_bidder.bidder,
            bidding_claim(pre.highest_bidder.amount),
        );
    } else {
        lemma_credited_totals(pre.claim_map@, bid.bidder, bidding_claim(bid.amount));
    }
}

/// `post` follows `pre` by the confirmation of `bid`.
pub open spec fn bid_confirmed(pre: AuctionContractState, bid: Bid, post: AuctionContractState) -> bool {
    exists|ctx: ContractContext, cb: CallbackContext, evs: Vec<EventGroup>|
        #[trigger] bid_callback_outcome(ctx, cb, pre, bid, Ok((post, evs)))
}

/// Sum of the amounts of a sequence of bids.
pub open spec fn bids_total(bids: Seq<Bid>) -> int
    decreases bids.len(),
{
    if bids.len() == 0 {
        0
    } else {
        bids_total(bids.drop_last()) + bids.last().amount
    }
}

/// Over a run of confirmed bids, bidding tokens are neither created nor
/// destroyed: what the ledger owes in bidding tokens, plus the lead, grows by
/// exactly the sum of the bids. From a new auction (empty ledger, lead of
/// zero) the two together equal the sum of all confirmed bids.
pub proof fn lemma_bids_conserve(states: Seq<AuctionContractState>, bids: Seq<Bid>, n: int)
    requires
        states.len() == bids.len() + 1,
        forall|k: int|
            0 <= k < bids.len() ==> #[trigger] bid_confirmed(states[k], bids[k], states[k + 1]),
        0 <= n <= bids.len(),
    ensures
        bidding_total(states[n].claim_map@) + states[n].highest_bidder.amount == bidding_total(
            states[0].claim_map@,
        ) + states[0].highest_bidder.amount + bids_total(bids.take(n)),
    decreases n,
{
    if n > 0 {
        lemma_bids_conserve(states, bids, n - 1);
        assert(bid_confirmed(states[n - 1], bids[n - 1], states[(n - 1) + 1]));
        let (ctx, cb, evs) = choose|ctx: ContractContext, cb: CallbackContext, evs: Vec<EventGroup>|
            #[trigger] bid_callback_outcome(ctx, cb, states[n - 1], bids[n - 1], Ok((states[n], evs)));
        lemma_bid_callback_conserves(ctx, cb, states[n - 1], bids[n - 1], states[n], evs);
        assert(bids.take(n).drop_last() =~= bids.take(n - 1));
    }
}

/// Claiming zeroes the caller's entry and leaves every other claim alone.
pub proof fn lemma_claim_settles(
    ctx: ContractContext,
    pre: AuctionContractState,
    post: AuctionContractState,
    evs: Vec<EventGroup>,
    other: Address,
)
    requires
        pre.wf(),
        claim_outcome(ctx, pre, (post, evs)),
    ensures
        claim_of(post.claim_map@, ctx.sender) == zero_claim(),
        other != ctx.sender ==> claim_of(post.claim_map@, other) == claim_of(pre.claim_map@, other),
{
    lemma_settled_claims(pre.claim_map@, ctx.sender, ctx.sender);
    lemma_settled_claims(pre.claim_map@, ctx.sender, other);
}

/// A second claim with no credit in between pays nothing and changes
/// nothing in the ledger.
pub proof fn lemma_claim_twice(
    ctx: ContractContext,
    s0: AuctionContractState,
    s1: AuctionContractState,
    e1: Vec<EventGroup>,
    s2: AuctionContractState,
    e2: Vec<EventGroup>,
)
    requires
        s0.wf(),
        claim_outcome(ctx, s0, (s1, e1)),
        claim_outcome(ctx, s1, (s2, e2)),
    ensures
        forall|k: int| 0 <= k < e2@.len() ==> (#[trigger] e2@[k]).calls@.len() == 0,
        s2.claim_map@ == s1.claim_map@,
        s2.highest_bidder == s1.highest_bidder,
        s2.status == s1.status,
{
    lemma_claim_settles(ctx, s0, s1, e1, ctx.sender);
    lemma_settled_claims(s0.claim_map@, ctx.sender, ctx.sender);
    if has_entry(s1.claim_map@, ctx.sender) {
        assert(claim_calls(s1, ctx.sender, zero_claim()) =~= Seq::empty());
        lemma_settled_claims(s1.claim_map@, ctx.sender, ctx.sender);
        let i = entry_index(s1.claim_map@, ctx.sender);
        assert(s1.claim_map@[i] == (ctx.sender, zero_claim()));
        assert(settled(s1.claim_map@, ctx.sender) =~= s1.claim_map@);
    }
}

/// `execute` succeeds only from `Bidding` once the window has closed, and
/// is rejected as a precondition violation otherwise.
pub proof fn lemma_execute_guard(
    ctx: ContractContext,
    pre: AuctionContractState,
    r: Result<Invocation, AuctionError>,
)
    requires
        execute_outcome(ctx, pre, r),
    ensures
        r is Ok ==> pre.status == AuctionStatus::Bidding && ctx.block_production_time
            >= pre.end_time_millis,
        ctx.block_production_time < pre.end_time_millis || pre.status != AuctionStatus::Bidding
            ==> r == Err::<Invocation, AuctionError>(AuctionError::PreconditionViolation),
{
}

/// After one `execute` has succeeded, another is rejected.
pub proof fn lemma_execute_once(
    c1: ContractContext,
    c2: ContractContext,
    pre: AuctionContractState,
    mid: AuctionContractState,
    evs: Vec<EventGroup>,
    r: Result<Invocation, AuctionError>,
)
    requires
        execute_outcome(c1, pre, Ok((mid, evs))),
        execute_outcome(c2, mid, r),
    ensures
        r == Err::<Invocation, AuctionError>(AuctionError::PreconditionViolation),
{
}

/// `cancel` succeeds only for the owner, from `Bidding`, before the window
/// closes, and is rejected as a precondition violation otherwise.
pub proof fn lemma_cancel_guard(
    ctx: ContractContext,
    pre: AuctionContractState,
    r: Result<Invocation, AuctionError>,
)
    requires
        cancel_outcome(ctx, pre, r),
    ensures
        r is Ok ==> {
            &&& pre.status == AuctionStatus::Bidding
            &&& ctx.block_production_time < pre.end_time_millis
            &&& ctx.sender == pre.contract_owner
        },
        ctx.sender != pre.contract_owner || ctx.block_production_time >= pre.end_time_millis
            || pre.status != AuctionStatus::Bidding ==> r == Err::<Invocation, AuctionError>(
            AuctionError::PreconditionViolation,
        ),
{
}

/// A cancelled auction stays cancelled: `execute` and `cancel` are rejected,
/// and a confirmed bid is only refunded, never takes the lead.
pub proof fn lemma_cancelled_is_final(
    ctx: ContractContext,
    cb: CallbackContext,
    pre: AuctionContractState,
    bid: Bid,
    r_execute: Result<Invocation, AuctionError>,
    r_cancel: Result<Invocation, AuctionError>,
    r_bid: Result<Invocation, AuctionError>,
)
    requires
        pre.status == AuctionStatus::Cancelled,
        execute_outcome(ctx, pre, r_execute),
        cancel_outcome(ctx, pre, r_cancel),
        bid_callback_outcome(ctx, cb, pre, bid, r_bid),
    ensures
        r_execute == Err::<Invocation, AuctionError>(AuctionError::PreconditionViolation),
        r_cancel == Err::<Invocation, AuctionError>(AuctionError::PreconditionViolation),
        r_bid matches Ok(out) ==> {
            &&& out.0.highest_bidder == pre.highest_bidder
            &&& out.0.status == AuctionStatus::Cancelled
        },
{
}

} // verus!

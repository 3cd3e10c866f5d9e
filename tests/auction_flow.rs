use auction::events::{BID_CALLBACK, START_CALLBACK, TOKEN_TRANSFER, TOKEN_TRANSFER_FROM};
use auction::{
    bid, bid_callback, cancel, claim, execute, initialize, start, start_callback, Address,
    AddressType, AuctionContractState, AuctionError, AuctionStatus, Bid, CallbackContext,
    Continuation, ContractContext, TokenCall, TokenClaim,
};

const HOUR: i64 = 3_600_000;

fn account(n: u8) -> Address {
    Address { address_type: AddressType::Account, identifier: [n; 20] }
}

fn public_contract(n: u8) -> Address {
    Address { address_type: AddressType::PublicContract, identifier: [n; 20] }
}

fn contract() -> Address {
    public_contract(99)
}

fn sale_token() -> Address {
    public_contract(10)
}

fn bidding_token() -> Address {
    public_contract(20)
}

fn owner() -> Address {
    account(1)
}

fn ctx(sender: Address, now: i64) -> ContractContext {
    ContractContext { contract_address: contract(), sender, block_production_time: now }
}

fn ok() -> CallbackContext {
    CallbackContext { success: true }
}

fn denied() -> CallbackContext {
    CallbackContext { success: false }
}

fn created(sale: u128, reserve: u128, increment: u128, hours: u32) -> AuctionContractState {
    let (state, events) = initialize(
        ctx(owner(), 1000),
        sale,
        sale_token(),
        bidding_token(),
        reserve,
        increment,
        hours,
    )
    .unwrap();
    assert!(events.is_empty());
    state
}

fn opened(sale: u128, reserve: u128, increment: u128) -> AuctionContractState {
    let state = created(sale, reserve, increment, 2);
    let (state, _) = start(ctx(owner(), 1000), state).unwrap();
    let (state, events) = start_callback(ctx(owner(), 1000), ok(), state).unwrap();
    assert!(events.is_empty());
    state
}

fn place(state: AuctionContractState, who: Address, amount: u128, now: i64) -> AuctionContractState {
    let (state, events) = bid(ctx(who, now), state, amount);
    let candidate = match events[0].callback {
        Some(Continuation::BidConfirmed { bid }) => bid,
        _ => panic!("a bid must carry its confirmation"),
    };
    let (state, events) = bid_callback(ctx(who, now), ok(), state, candidate).unwrap();
    assert!(events.is_empty());
    state
}

fn owed(state: &AuctionContractState, who: Address) -> Option<TokenClaim> {
    state.claim_map.get(&who)
}

fn bidding(amount: u128) -> TokenClaim {
    TokenClaim { tokens_for_bidding: amount, tokens_for_sale: 0 }
}

#[test]
fn full_auction_scenario() {
    let (a, b, c) = (account(2), account(3), account(4));
    let state = opened(1000, 50, 5);
    assert_eq!(state.status, AuctionStatus::Bidding);
    let state = place(state, a, 60, 2000);
    assert_eq!(state.highest_bidder, Bid { bidder: a, amount: 60 });
    let state = place(state, b, 63, 3000);
    assert_eq!(state.highest_bidder, Bid { bidder: a, amount: 60 });
    assert_eq!(owed(&state, b), Some(bidding(63)));
    let state = place(state, c, 70, 4000);
    assert_eq!(state.highest_bidder, Bid { bidder: c, amount: 70 });
    assert_eq!(owed(&state, a), Some(bidding(60)));
    let end = state.end_time_millis;
    let (state, events) = execute(ctx(account(7), end), state).unwrap();
    assert!(events.is_empty());
    assert_eq!(state.status, AuctionStatus::Ended);
    assert_eq!(owed(&state, owner()), Some(bidding(70)));
    assert_eq!(
        owed(&state, c),
        Some(TokenClaim { tokens_for_bidding: 0, tokens_for_sale: 1000 })
    );

    let (state, events) = claim(ctx(a, end), state);
    assert_eq!(events.len(), 1);
    assert_eq!(
        events[0].calls,
        vec![TokenCall::Transfer { token: bidding_token(), to: a, amount: 60 }]
    );
    let (state, events) = claim(ctx(owner(), end), state);
    assert_eq!(
        events[0].calls,
        vec![TokenCall::Transfer { token: bidding_token(), to: owner(), amount: 70 }]
    );
    let (state, events) = claim(ctx(c, end), state);
    assert_eq!(
        events[0].calls,
        vec![TokenCall::Transfer { token: sale_token(), to: c, amount: 1000 }]
    );
    assert_eq!(owed(&state, c), Some(bidding(0)));
}

#[test]
fn initialize_sets_terms() {
    let state = created(1000, 50, 5, 3);
    assert_eq!(state.contract_owner, owner());
    assert_eq!(state.start_time_millis, 1000);
    assert_eq!(state.end_time_millis, 1000 + 3 * HOUR);
    assert_eq!(state.token_amount_for_sale, 1000);
    assert_eq!(state.token_for_sale, sale_token());
    assert_eq!(state.token_for_bidding, bidding_token());
    assert_eq!(state.highest_bidder, Bid { bidder: owner(), amount: 0 });
    assert_eq!(state.reserve_price, 50);
    assert_eq!(state.min_increment, 5);
    assert_eq!(state.status, AuctionStatus::Creation);
    assert_eq!(owed(&state, owner()), None);
}

#[test]
fn initialize_rejects_non_contract_tokens() {
    let r = initialize(ctx(owner(), 0), 1, account(10), bidding_token(), 0, 0, 1);
    assert_eq!(r.err(), Some(AuctionError::PreconditionViolation));
    let r = initialize(ctx(owner(), 0), 1, sale_token(), account(20), 0, 0, 1);
    assert_eq!(r.err(), Some(AuctionError::PreconditionViolation));
    let zk = Address { address_type: AddressType::ZkContract, identifier: [5; 20] };
    let r = initialize(ctx(owner(), 0), 1, zk, bidding_token(), 0, 0, 1);
    assert_eq!(r.err(), Some(AuctionError::PreconditionViolation));
}

#[test]
fn initialize_rejects_end_time_past_the_clock() {
    let r = initialize(ctx(owner(), i64::MAX - 10), 1, sale_token(), bidding_token(), 0, 0, 1);
    assert_eq!(r.err(), Some(AuctionError::PreconditionViolation));
    let r = initialize(ctx(owner(), i64::MAX - HOUR), 1, sale_token(), bidding_token(), 0, 0, 1);
    assert_eq!(r.unwrap().0.end_time_millis, i64::MAX);
}

#[test]
fn start_requests_sale_tokens() {
    let state = created(1000, 50, 5, 2);
    let (state, events) = start(ctx(owner(), 1500), state).unwrap();
    assert_eq!(state.status, AuctionStatus::Creation);
    assert_eq!(events.len(), 1);
    assert_eq!(
        events[0].calls,
        vec![TokenCall::TransferFrom {
            token: sale_token(),
            from: owner(),
            to: contract(),
            amount: 1000,
        }]
    );
    assert_eq!(events[0].callback, Some(Continuation::StartConfirmed));
    assert_eq!(events[0].calls[0].shortname(), TOKEN_TRANSFER_FROM);
    assert_eq!(events[0].callback.unwrap().shortname(), START_CALLBACK);
}

#[test]
fn start_rejects_other_callers_and_states() {
    let state = created(1000, 50, 5, 2);
    let r = start(ctx(account(2), 1500), state);
    assert_eq!(r.err(), Some(AuctionError::PreconditionViolation));
    let state = opened(1000, 50, 5);
    let r = start(ctx(owner(), 1500), state);
    assert_eq!(r.err(), Some(AuctionError::PreconditionViolation));
}

#[test]
fn start_callback_denied_is_transfer_denied() {
    let state = created(1000, 50, 5, 2);
    let r = start_callback(ctx(owner(), 1000), denied(), state);
    assert_eq!(r.err(), Some(AuctionError::TransferDenied));
}

#[test]
fn start_callback_never_reopens() {
    let state = opened(1000, 50, 5);
    let r = start_callback(ctx(owner(), 1000), ok(), state);
    assert_eq!(r.err(), Some(AuctionError::PreconditionViolation));
}

#[test]
fn bid_requests_tokens_and_leaves_state() {
    let state = opened(1000, 50, 5);
    let (state, events) = bid(ctx(account(2), 2000), state, 75);
    assert_eq!(state.highest_bidder, Bid { bidder: owner(), amount: 0 });
    assert_eq!(
        events[0].calls,
        vec![TokenCall::TransferFrom {
            token: bidding_token(),
            from: account(2),
            to: contract(),
            amount: 75,
        }]
    );
    let expected = Continuation::BidConfirmed { bid: Bid { bidder: account(2), amount: 75 } };
    assert_eq!(events[0].callback, Some(expected));
    assert_eq!(expected.shortname(), BID_CALLBACK);
}

#[test]
fn bid_callback_denied_is_transfer_denied() {
    let state = opened(1000, 50, 5);
    let candidate = Bid { bidder: account(2), amount: 80 };
    let r = bid_callback(ctx(account(2), 2000), denied(), state, candidate);
    assert_eq!(r.err(), Some(AuctionError::TransferDenied));
}

#[test]
fn bid_below_reserve_is_refunded() {
    let state = opened(1000, 50, 5);
    let state = place(state, account(2), 49, 2000);
    assert_eq!(state.highest_bidder.amount, 0);
    assert_eq!(owed(&state, account(2)), Some(bidding(49)));
}

#[test]
fn bid_exactly_at_increment_wins() {
    let state = opened(1000, 50, 5);
    let state = place(state, account(2), 60, 2000);
    let state = place(state, account(3), 65, 2000);
    assert_eq!(state.highest_bidder, Bid { bidder: account(3), amount: 65 });
    assert_eq!(owed(&state, account(2)), Some(bidding(60)));
}

#[test]
fn equal_bid_with_zero_increment_loses() {
    let state = opened(1000, 0, 0);
    let state = place(state, account(2), 10, 2000);
    let state = place(state, account(3), 10, 2000);
    assert_eq!(state.highest_bidder, Bid { bidder: account(2), amount: 10 });
    assert_eq!(owed(&state, account(3)), Some(bidding(10)));
    assert_eq!(owed(&state, account(2)), None);
}

#[test]
fn higher_bid_with_zero_increment_wins() {
    let state = opened(1000, 0, 0);
    let state = place(state, account(2), 10, 2000);
    let state = place(state, account(3), 11, 2000);
    assert_eq!(state.highest_bidder, Bid { bidder: account(3), amount: 11 });
    assert_eq!(owed(&state, account(2)), Some(bidding(10)));
}

#[test]
fn initialize_rejects_zero_duration() {
    let r = initialize(ctx(owner(), 1000), 1, sale_token(), bidding_token(), 0, 0, 0);
    assert_eq!(r.err(), Some(AuctionError::PreconditionViolation));
}

#[test]
fn bid_after_end_is_refunded() {
    let state = opened(1000, 50, 5);
    let end = state.end_time_millis;
    let state = place(state, account(2), 500, end);
    assert_eq!(state.highest_bidder.amount, 0);
    assert_eq!(owed(&state, account(2)), Some(bidding(500)));
}

#[test]
fn bid_before_start_is_refunded() {
    let state = created(1000, 50, 5, 2);
    let state = place(state, account(2), 500, 1500);
    assert_eq!(state.highest_bidder.amount, 0);
    assert_eq!(owed(&state, account(2)), Some(bidding(500)));
}

#[test]
fn refunds_accumulate_for_one_bidder() {
    let state = opened(1000, 50, 5);
    let state = place(state, account(2), 10, 2000);
    let state = place(state, account(2), 20, 2000);
    assert_eq!(owed(&state, account(2)), Some(bidding(30)));
}

#[test]
fn increment_overflow_means_losing_bid() {
    let state = opened(1000, 0, u128::MAX);
    let state = place(state, account(2), u128::MAX, 2000);
    assert_eq!(state.highest_bidder.amount, u128::MAX);
    let state = place(state, account(3), u128::MAX, 2000);
    assert_eq!(state.highest_bidder.bidder, account(2));
    assert_eq!(owed(&state, account(3)), Some(bidding(u128::MAX)));
}

#[test]
fn ledger_overflow_is_rejected() {
    let state = opened(1000, 0, 0);
    let state = place(state, account(2), u128::MAX - 1, 2000);
    let state = place(state, account(3), u128::MAX, 2000);
    assert_eq!(owed(&state, account(2)), Some(bidding(u128::MAX - 1)));
    let again = Bid { bidder: account(2), amount: 2 };
    let r = bid_callback(ctx(account(2), 2000), ok(), state, again);
    assert_eq!(r.err(), Some(AuctionError::AmountOverflow));
}

#[test]
fn lead_never_falls_and_bidding_tokens_are_conserved() {
    let amounts: [u128; 6] = [55, 52, 80, 84, 85, 200];
    let mut state = opened(1000, 50, 5);
    let mut total: u128 = 0;
    let mut lead = state.highest_bidder.amount;
    for (k, amount) in amounts.iter().enumerate() {
        let before = state.highest_bidder;
        state = place(state, account(2 + k as u8), *amount, 2000);
        total += amount;
        assert!(state.highest_bidder.amount >= lead);
        if state.highest_bidder != before {
            assert!(state.highest_bidder.amount >= before.amount + 5);
            assert!(state.highest_bidder.amount >= 50);
        }
        lead = state.highest_bidder.amount;
        let mut ledger: u128 = 0;
        for n in 0..amounts.len() {
            if let Some(c) = owed(&state, account(2 + n as u8)) {
                ledger += c.tokens_for_bidding;
            }
        }
        assert_eq!(ledger + lead, total);
    }
    assert_eq!(lead, 200);
}

#[test]
fn claim_without_entry_does_nothing() {
    let state = opened(1000, 50, 5);
    let (state, events) = claim(ctx(account(9), 2000), state);
    assert!(events.is_empty());
    assert_eq!(owed(&state, account(9)), None);
}

#[test]
fn claim_twice_pays_once() {
    let state = opened(1000, 50, 5);
    let state = place(state, account(2), 60, 2000);
    let state = place(state, account(3), 61, 2000);
    let (state, events) = claim(ctx(account(3), 2000), state);
    assert_eq!(events[0].calls.len(), 1);
    assert_eq!(events[0].calls[0].shortname(), TOKEN_TRANSFER);
    assert_eq!(events[0].callback, None);
    let (state, events) = claim(ctx(account(3), 2000), state);
    assert!(events.iter().all(|e| e.calls.is_empty()));
    assert_eq!(owed(&state, account(3)), Some(bidding(0)));
    assert_eq!(state.highest_bidder, Bid { bidder: account(2), amount: 60 });
}

#[test]
fn claim_pays_both_tokens_in_order() {
    let state = opened(1000, 0, 0);
    let state = place(state, owner(), 30, 2000);
    let state = place(state, account(2), 40, 2000);
    let end = state.end_time_millis;
    let (state, _) = cancel(ctx(owner(), end - 1), state).unwrap();
    let (_, events) = claim(ctx(owner(), end), state);
    assert_eq!(
        events[0].calls,
        vec![
            TokenCall::Transfer { token: bidding_token(), to: owner(), amount: 30 },
            TokenCall::Transfer { token: sale_token(), to: owner(), amount: 1000 },
        ]
    );
}

#[test]
fn execute_before_end_is_rejected() {
    let state = opened(1000, 50, 5);
    let end = state.end_time_millis;
    let r = execute(ctx(owner(), end - 1), state);
    assert_eq!(r.err(), Some(AuctionError::PreconditionViolation));
}

#[test]
fn execute_twice_is_rejected() {
    let state = opened(1000, 50, 5);
    let end = state.end_time_millis;
    let (state, _) = execute(ctx(owner(), end), state).unwrap();
    let r = execute(ctx(owner(), end + 1), state);
    assert_eq!(r.err(), Some(AuctionError::PreconditionViolation));
}

#[test]
fn execute_outside_bidding_is_rejected() {
    let state = created(1000, 50, 5, 2);
    let end = state.end_time_millis;
    let r = execute(ctx(owner(), end), state);
    assert_eq!(r.err(), Some(AuctionError::PreconditionViolation));
}

#[test]
fn execute_without_bids_returns_sale_to_owner() {
    let state = opened(1000, 50, 5);
    let end = state.end_time_millis;
    let (state, _) = execute(ctx(account(5), end), state).unwrap();
    assert_eq!(owed(&state, owner()), Some(TokenClaim { tokens_for_bidding: 0, tokens_for_sale: 1000 }));
}

#[test]
fn cancel_refunds_lead_and_returns_sale() {
    let state = opened(1000, 50, 5);
    let state = place(state, account(2), 60, 2000);
    let (state, events) = cancel(ctx(owner(), 3000), state).unwrap();
    assert!(events.is_empty());
    assert_eq!(state.status, AuctionStatus::Cancelled);
    assert_eq!(owed(&state, account(2)), Some(bidding(60)));
    assert_eq!(owed(&state, owner()), Some(TokenClaim { tokens_for_bidding: 0, tokens_for_sale: 1000 }));
}

#[test]
fn cancel_guards() {
    let state = opened(1000, 50, 5);
    let end = state.end_time_millis;
    let r = cancel(ctx(account(2), 3000), state);
    assert_eq!(r.err(), Some(AuctionError::PreconditionViolation));
    let state = opened(1000, 50, 5);
    let r = cancel(ctx(owner(), end), state);
    assert_eq!(r.err(), Some(AuctionError::PreconditionViolation));
    let state = created(1000, 50, 5, 2);
    let r = cancel(ctx(owner(), 3000), state);
    assert_eq!(r.err(), Some(AuctionError::PreconditionViolation));
}

#[test]
fn cancelled_auction_is_final() {
    let state = opened(1000, 50, 5);
    let state = place(state, account(2), 60, 2000);
    let end = state.end_time_millis;
    let (state, _) = cancel(ctx(owner(), 3000), state).unwrap();
    let state = place(state, account(3), 500, 3000);
    assert_eq!(state.highest_bidder, Bid { bidder: account(2), amount: 60 });
    assert_eq!(state.status, AuctionStatus::Cancelled);
    assert_eq!(owed(&state, account(3)), Some(bidding(500)));
    let r = cancel(ctx(owner(), 3000), clone_state(&state));
    assert_eq!(r.err(), Some(AuctionError::PreconditionViolation));
    let r = execute(ctx(owner(), end), state);
    assert_eq!(r.err(), Some(AuctionError::PreconditionViolation));
}

fn clone_state(s: &AuctionContractState) -> AuctionContractState {
    s.clone()
}

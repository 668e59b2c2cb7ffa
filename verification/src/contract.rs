//! The entry points of an auction: creation, the handling of messages, and queries.

use vstd::prelude::*;
use crate::auction::{text_of, Auction, AuctionError, AuctionView, BidAcceptancePolicy, ZeroBidPolicy};
use crate::auction::{bid_placed_answer, no_bid_answer};
use crate::bids::bid_of;
use crate::clock::{utc_text, LAST_FOUR_DIGIT_SECOND};
use crate::ledger::TransferView;
use crate::msg::Outcome;
use crate::pricing::{calculate_estimation, calculate_score, convert_to_tokens, credit_fits};
use crate::pricing::{credit_worth, estimation, leading_power_of_ten, perfect_proposal, proposal_bid};
use crate::pricing::{score_computable, score_of, score_points, token_balance, tokens_computable};
use crate::pricing::{Credit, History, Proposal};
use crate::settle::AuctionDirection;
use crate::snip20::{register_receive_message, ContractInfo, WasmExecute};

verus! {

/// What an operation knows of the call that it serves.
#[derive(Clone, Debug, PartialEq, Eq)]
pub struct Env {
    /// Who sent the message.
    pub sender: String,
    /// The time of the block that holds the message.
    pub block_time: u64,
    /// The address of the auction itself.
    pub contract_address: String,
    /// The code hash of the auction itself.
    pub contract_code_hash: String,
}

/// What the amount for sale is derived from.
#[derive(Clone, Debug, PartialEq, Eq)]
pub enum PricingInput {
    /// The seller's credits: the lot is their balance in tokens, and a bid must stay below
    /// the lot.
    CreditHistory { credit_request: Vec<Credit> },
    /// The credit that the seller expects and the payment that the seller offers, with the
    /// history store's answer to the question about the seller's history: the lot is the
    /// seller's score, and a bid must not exceed the estimate.
    Score { expected: u128, payment: u128, oracle: OracleQueryResponse },
}

/// The question to the history store about a user's history.
#[derive(Clone, Debug, PartialEq, Eq)]
pub enum OracleQueryMsg {
    /// The history of `user`.
    GetHistory { user: String },
}

/// The question to put to the history store before an auction is created from a score: the
/// history of the one who creates it.
pub fn oracle_query(env: &Env) -> (r: OracleQueryMsg)
    ensures
        r matches OracleQueryMsg::GetHistory { user } && user@ == env.sender@,
{
    OracleQueryMsg::GetHistory { user: env.sender.clone() }
}

/// The history store's answer to a question about a user's history.
#[derive(Clone, Debug, PartialEq, Eq)]
pub struct OracleQueryResponse {
    /// The history, if the store holds one.
    pub history: Option<History>,
    /// Whether a history was found.
    pub message: String,
}

/// The message that creates an auction.
#[derive(Clone, Debug, PartialEq, Eq)]
pub struct InitMsg {
    /// The contract of the token that is for sale.
    pub sell_contract: ContractInfo,
    /// The contract of the token in which bids are made.
    pub bid_contract: ContractInfo,
    /// What the amount for sale is derived from.
    pub pricing: PricingInput,
    /// Which way the bidding runs.
    pub direction: AuctionDirection,
    /// What becomes of a bid of zero tokens.
    pub zero_bids: ZeroBidPolicy,
    /// The seller's description of the lot.
    pub description: Option<String>,
}

/// Why no auction was created.
#[derive(Clone, Copy, Debug, PartialEq, Eq, Structural)]
pub enum InitError {
    /// The list of credits is empty.
    NoCredits,
    /// The credits are good for no tokens.
    BadCredits,
    /// The sale token and the bid token are the same contract.
    SameContract,
    /// The payment offered does not exceed the credit expected.
    PaymentTooLow,
    /// The history store knows no history of the seller.
    NoHistory,
    /// The seller has no score above zero.
    BadScore,
    /// The estimate of the highest bid cannot be computed.
    NoEstimate,
    /// A message to a token contract could not be built.
    Message,
}

impl InitError {
    /// The wording of the error.
    pub open spec fn text(self) -> Seq<char> {
        match self {
            InitError::NoCredits => "There must be a credit history"@,
            InitError::BadCredits => "You have too bad credit history to get a new credit"@,
            InitError::SameContract => "Sell contract and bid contract must be different"@,
            InitError::PaymentTooLow => "You can't expect to pay less than sum of credit"@,
            InitError::NoHistory => "You have no credit history to calculate score"@,
            InitError::BadScore => "You have too bad score"@,
            InitError::NoEstimate => "The estimation of the average bid cannot be computed"@,
            InitError::Message => "A message to a token contract cannot be built"@,
        }
    }

    /// The error as a string.
    pub fn message(self) -> (r: String)
        ensures
            r@ == self.text(),
    {
        match self {
            InitError::NoCredits => "There must be a credit history".to_owned(),
            InitError::BadCredits => "You have too bad credit history to get a new credit".to_owned(),
            InitError::SameContract => "Sell contract and bid contract must be different".to_owned(),
            InitError::PaymentTooLow => "You can't expect to pay less than sum of credit".to_owned(),
            InitError::NoHistory => "You have no credit history to calculate score".to_owned(),
            InitError::BadScore => "You have too bad score".to_owned(),
            InitError::NoEstimate => "The estimation of the average bid cannot be computed".to_owned(),
            InitError::Message => "A message to a token contract cannot be built".to_owned(),
        }
    }
}

/// The messages to send when an auction has been created.
#[derive(Clone, Debug, PartialEq, Eq)]
pub struct InitResponse {
    pub messages: Vec<WasmExecute>,
}

/// The tokens that a list of credits is good for, where there are any.
pub open spec fn credits_lot(credits: Seq<Credit>) -> Option<u128> {
    if tokens_computable(credits) && token_balance(credits) > 0 {
        Some(token_balance(credits) as u128)
    } else {
        None
    }
}

/// The score of a history on the scale `mul`, where there is one.
pub open spec fn history_score(history: History, mul: u128) -> Option<u128> {
    let points = score_points(history.debts, history.credits@, mul);
    if score_computable(history.debts, history.credits@, mul) && score_of(points, mul) > 0 {
        Some(score_of(points, mul) as u128)
    } else {
        None
    }
}

/// The estimate of the highest bid, where it can be computed.
pub open spec fn average_bid(payment: u128, expected: u128) -> Option<u128> {
    let mul = leading_power_of_ten(payment as nat) as u128;
    if expected > 0 && estimation(payment, expected, mul) <= u128::MAX {
        Some(estimation(payment, expected, mul) as u128)
    } else {
        None
    }
}

/// The amount for sale and the ceiling rule that `msg` asks for, or the reason why it asks
/// for none.
pub open spec fn init_terms(msg: InitMsg) -> Result<(u128, BidAcceptancePolicy), InitError> {
    let same = msg.sell_contract@.address == msg.bid_contract@.address;
    match msg.pricing {
        PricingInput::CreditHistory { credit_request } => {
            if credit_request@.len() == 0 {
                Err(InitError::NoCredits)
            } else if credits_lot(credit_request@) is None {
                Err(InitError::BadCredits)
            } else if same {
                Err(InitError::SameContract)
            } else {
                Ok((credits_lot(credit_request@).unwrap(), BidAcceptancePolicy::BelowRequired))
            }
        },
        PricingInput::Score { expected, payment, oracle } => {
            let mul = leading_power_of_ten(payment as nat) as u128;
            let history = oracle.history;
            if same {
                Err(InitError::SameContract)
            } else if payment <= expected {
                Err(InitError::PaymentTooLow)
            } else if history is None {
                Err(InitError::NoHistory)
            } else if history_score(history.unwrap(), mul) is None {
                Err(InitError::BadScore)
            } else if average_bid(payment, expected) is None {
                Err(InitError::NoEstimate)
            } else {
                Ok(
                    (
                        history_score(history.unwrap(), mul).unwrap(),
                        BidAcceptancePolicy::UpToEstimate {
                            average_bid: average_bid(payment, expected).unwrap(),
                        },
                    ),
                )
            }
        },
    }
}

/// The state of an auction that has just been created by `msg` in the call `env`, for
/// `required_amount` tokens under the ceiling rule `policy`.
pub open spec fn opening(env: Env, msg: InitMsg, required_amount: u128, policy: BidAcceptancePolicy) -> AuctionView {
    AuctionView {
        auction_addr: env.contract_address@,
        seller: env.sender@,
        sell_contract: msg.sell_contract@,
        bid_contract: msg.bid_contract@,
        direction: msg.direction,
        policy,
        zero_bids: msg.zero_bids,
        required_amount,
        currently_consigned: 0,
        tokens_consigned: false,
        is_completed: false,
        winning_bid: 0,
        description: text_of(msg.description),
        bids: Seq::empty(),
    }
}

/// Derives the amount for sale and the ceiling rule from a creation message.
pub fn terms(msg: &InitMsg) -> (r: Result<(u128, BidAcceptancePolicy), InitError>)
    ensures
        r == init_terms(*msg),
{
    let same = msg.sell_contract.address == msg.bid_contract.address;
    match &msg.pricing {
        PricingInput::CreditHistory { credit_request } => {
            if credit_request.len() == 0 {
                return Err(InitError::NoCredits);
            }
            match convert_to_tokens(credit_request) {
                None => Err(InitError::BadCredits),
                Some(lot) => {
                    if lot == 0 {
                        Err(InitError::BadCredits)
                    } else if same {
                        Err(InitError::SameContract)
                    } else {
                        Ok((lot, BidAcceptancePolicy::BelowRequired))
                    }
                },
            }
        },
        PricingInput::Score { expected, payment, oracle } => {
            if same {
                return Err(InitError::SameContract);
            }
            if *payment <= *expected {
                return Err(InitError::PaymentTooLow);
            }
            let mul = perfect_proposal(*payment);
            let known = match &oracle.history {
                Some(h) => h,
                None => {
                    return Err(InitError::NoHistory);
                },
            };
            let score = match calculate_score(known, mul) {
                Some(s) => s,
                None => {
                    return Err(InitError::BadScore);
                },
            };
            match calculate_estimation(*payment, *expected, mul) {
                Some(average_bid) => Ok((score, BidAcceptancePolicy::UpToEstimate { average_bid })),
                None => Err(InitError::NoEstimate),
            }
        },
    }
}

/// Creates an auction. The sender of the message becomes the seller. The answer holds the
/// two messages that register the auction with the sale token and with the bid token, in
/// that order.
pub fn init(env: Env, msg: InitMsg) -> (r: Result<(Auction, InitResponse), InitError>)
    ensures
        match r {
            Ok((auction, response)) => {
                &&& init_terms(msg) matches Ok((required_amount, policy))
                &&& auction.wf()
                &&& auction@ == opening(env, msg, required_amount, policy)
                &&& response.messages@.len() == 2
                &&& register_receive_message(msg.sell_contract@, env.contract_code_hash@) == Some(
                    response.messages@[0]@,
                )
                &&& register_receive_message(msg.bid_contract@, env.contract_code_hash@) == Some(
                    response.messages@[1]@,
                )
            },
            Err(e) => match init_terms(msg) {
                Err(reason) => e == reason,
                Ok(_) => e == InitError::Message && (register_receive_message(
                    msg.sell_contract@,
                    env.contract_code_hash@,
                ) is None || register_receive_message(msg.bid_contract@, env.contract_code_hash@) is None),
            },
        },
{
    let (required_amount, policy) = match terms(&msg) {
        Ok(found) => found,
        Err(e) => {
            return Err(e);
        },
    };
    let to_sale_token = match msg.sell_contract.register_receive_msg(env.contract_code_hash.clone()) {
        Ok(m) => m,
        Err(_) => {
            return Err(InitError::Message);
        },
    };
    let to_bid_token = match msg.bid_contract.register_receive_msg(env.contract_code_hash) {
        Ok(m) => m,
        Err(_) => {
            return Err(InitError::Message);
        },
    };
    let mut messages: Vec<WasmExecute> = Vec::new();
    messages.push(to_sale_token);
    messages.push(to_bid_token);
    let made = Auction::new(
        env.contract_address,
        env.sender,
        msg.sell_contract,
        msg.bid_contract,
        msg.direction,
        policy,
        msg.zero_bids,
        required_amount,
        msg.description,
    );
    match made {
        Some(auction) => Ok((auction, InitResponse { messages })),
        // never taken: `terms` gives a lot only where the two contracts differ and the lot
        // is not empty
        None => Err(InitError::SameContract),
    }
}

/// The messages that an auction handles.
#[derive(Clone, Debug, PartialEq, Eq)]
pub enum HandleMsg {
    /// A token contract's notice that `from` has sent `amount` tokens to the auction. From
    /// the sale token it is a consignment, from the bid token a bid.
    Receive {
        /// Who had the tokens sent.
        sender: String,
        /// Who owned the tokens.
        from: String,
        /// How many tokens were sent.
        amount: u128,
        /// What came with the tokens; the auction does not read it.
        msg: Option<Vec<u8>>,
    },
    /// The sender asks for their standing offer.
    ViewBid {},
    /// The seller closes the auction.
    Finalize {
        /// Whether an auction without bids stays open.
        only_if_bids: bool,
    },
    /// Anyone asks a closed auction to hand back what it still holds.
    ReturnAll {},
}

impl HandleMsg {
    /// Whether the answer to this message goes into the log of the response rather than
    /// into its data: the answers to deposit notices do.
    pub fn answered_in_log(&self) -> (r: bool)
        ensures
            r == (*self is Receive),
    {
        match self {
            HandleMsg::Receive { .. } => true,
            _ => false,
        }
    }
}

/// Why a message was rejected outright: nothing has changed and nothing is transferred.
#[derive(Clone, Debug, PartialEq, Eq)]
pub enum HandleError {
    /// The auction rejected the operation.
    Auction(AuctionError),
    /// A deposit notice came from a contract that is neither the sale token nor the bid
    /// token.
    NotAToken { sender: String },
    /// The time of the sender's bid lies beyond what the calendar holds.
    TimeOutOfRange,
}

impl HandleError {
    /// The wording of the error.
    pub open spec fn text(self) -> Seq<char> {
        match self {
            HandleError::Auction(e) => e.text(),
            HandleError::NotAToken { sender } => "Address: "@ + sender@
                + " is not a token in this auction"@,
            HandleError::TimeOutOfRange => "The time of the bid is out of range"@,
        }
    }

    /// The error as a string.
    pub fn message(&self) -> (r: String)
        ensures
            r@ == self.text(),
    {
        match self {
            HandleError::Auction(e) => e.message(),
            HandleError::NotAToken { sender } => "Address: ".to_owned().concat(sender.as_str()).concat(
                " is not a token in this auction",
            ),
            HandleError::TimeOutOfRange => "The time of the bid is out of range".to_owned(),
        }
    }
}

/// What holds after a deposit notice from `sender` about `amount` tokens of `from`, at
/// block time `now`: from the sale token it was handled as a consignment, from the bid token
/// as a bid, and from anyone else it was rejected.
pub open spec fn receive_post(
    before: AuctionView,
    after: AuctionView,
    sender: Seq<char>,
    from: Seq<char>,
    amount: u128,
    now: u64,
    r: Result<Outcome, HandleError>,
) -> bool {
    if sender == before.sell_contract.address {
        &&& after == before.after_consign(from, amount)
        &&& r matches Ok(outcome)
        &&& outcome@ == before.consign_outcome(from, amount)
        &&& outcome.state_changed == (after != before)
    } else if sender == before.bid_contract.address {
        &&& after == before.after_bid(from, amount, now)
        &&& match r {
            Ok(outcome) => {
                &&& before.bid_error(amount) is None
                &&& outcome@ == before.bid_outcome(from, amount)
                &&& outcome.state_changed == (after != before)
            },
            Err(e) => before.bid_error(amount) matches Some(reason) && e == HandleError::Auction(
                reason,
            ),
        }
    } else {
        &&& after == before
        &&& r matches Err(HandleError::NotAToken { sender: named })
        &&& named@ == sender
    }
}

/// What holds after a request by `caller` to close the auction, or to drain it.
pub open spec fn finalize_post(
    before: AuctionView,
    after: AuctionView,
    caller: Seq<char>,
    only_if_bids: bool,
    return_all: bool,
    r: Result<Outcome, HandleError>,
) -> bool {
    match r {
        Ok(outcome) => {
            &&& before.finalize_error(caller, only_if_bids, return_all) is None
            &&& after == before.after_finalize()
            &&& outcome@.transfers == before.finalize_transfers()
            &&& outcome@.answer == before.finalize_answer(return_all)
            &&& outcome.state_changed == (after != before)
        },
        Err(e) => {
            &&& before.finalize_error(caller, only_if_bids, return_all) matches Some(reason)
            &&& e == HandleError::Auction(reason)
            &&& after == before
        },
    }
}

/// What holds after `bidder` has asked for their standing offer: nothing has changed and
/// nothing is transferred; without an offer the answer says so; with one, the answer names
/// its amount and spells out its time, or fails where the time cannot be spelt out, which
/// happens for no time up to the end of the year 9999.
pub open spec fn view_bid_post(
    before: AuctionView,
    after: AuctionView,
    bidder: Seq<char>,
    r: Result<Outcome, HandleError>,
) -> bool {
    &&& after == before
    &&& match r {
        Ok(outcome) => {
            &&& outcome@.transfers == Seq::<TransferView>::empty()
            &&& !outcome.state_changed
            &&& match bid_of(before.bids, bidder) {
                None => outcome@.answer == no_bid_answer(bidder),
                Some(bid) => bid.timestamp <= i64::MAX && outcome@.answer == bid_placed_answer(
                    bid.amount,
                    utc_text(bid.timestamp as i64),
                ),
            }
        },
        Err(e) => {
            &&& e == HandleError::TimeOutOfRange
            &&& bid_of(before.bids, bidder) matches Some(bid)
            &&& bid.timestamp > LAST_FOUR_DIGIT_SECOND
        },
    }
}

/// Handles a token contract's notice of a deposit: a consignment where the notice comes from
/// the sale token, a bid where it comes from the bid token, and an error otherwise.
pub fn try_receive(auction: &mut Auction, env: Env, from: String, amount: u128) -> (r: Result<
    Outcome,
    HandleError,
>)
    requires
        old(auction).wf(),
    ensures
        final(auction).wf(),
        receive_post(old(auction)@, final(auction)@, env.sender@, from@, amount, env.block_time, r),
{
    if env.sender == auction.sell_contract().address {
        Ok(auction.try_consign(from, amount))
    } else if env.sender == auction.bid_contract().address {
        match auction.try_bid(from, amount, env.block_time) {
            Ok(outcome) => Ok(outcome),
            Err(e) => Err(HandleError::Auction(e)),
        }
    } else {
        Err(HandleError::NotAToken { sender: env.sender })
    }
}

/// Answers the sender's question about their standing offer.
pub fn try_view_bid(auction: &Auction, bidder: &String) -> (r: Result<Outcome, HandleError>)
    requires
        auction.wf(),
    ensures
        view_bid_post(auction@, auction@, bidder@, r),
{
    match auction.try_view_bid(bidder) {
        Some(answer) => {
            let r = Outcome { transfers: Vec::new(), answer, state_changed: false };
            assert(r@.transfers =~= Seq::<TransferView>::empty());
            Ok(r)
        },
        None => Err(HandleError::TimeOutOfRange),
    }
}

/// Closes the auction for `env.sender`, or with `return_all` drains it.
pub fn try_finalize(auction: &mut Auction, env: Env, only_if_bids: bool, return_all: bool) -> (r: Result<
    Outcome,
    HandleError,
>)
    requires
        old(auction).wf(),
    ensures
        final(auction).wf(),
        finalize_post(old(auction)@, final(auction)@, env.sender@, only_if_bids, return_all, r),
{
    match auction.try_finalize(&env.sender, only_if_bids, return_all) {
        Ok(outcome) => Ok(outcome),
        Err(e) => Err(HandleError::Auction(e)),
    }
}

/// Handles a message: a deposit notice, a question about one's bid, a request to close the
/// auction, or a request to drain it.
pub fn handle(auction: &mut Auction, env: Env, msg: HandleMsg) -> (r: Result<Outcome, HandleError>)
    requires
        old(auction).wf(),
    ensures
        final(auction).wf(),
        match msg {
            HandleMsg::Receive { from, amount, .. } => receive_post(
                old(auction)@,
                final(auction)@,
                env.sender@,
                from@,
                amount,
                env.block_time,
                r,
            ),
            HandleMsg::ViewBid {  } => view_bid_post(old(auction)@, final(auction)@, env.sender@, r),
            HandleMsg::Finalize { only_if_bids } => finalize_post(
                old(auction)@,
                final(auction)@,
                env.sender@,
                only_if_bids,
                false,
                r,
            ),
            HandleMsg::ReturnAll {  } => finalize_post(
                old(auction)@,
                final(auction)@,
                env.sender@,
                false,
                true,
                r,
            ),
        },
{
    match msg {
        HandleMsg::Finalize { only_if_bids } => try_finalize(auction, env, only_if_bids, false),
        HandleMsg::ReturnAll {  } => try_finalize(auction, env, false, true),
        HandleMsg::Receive { from, amount, .. } => try_receive(auction, env, from, amount),
        HandleMsg::ViewBid {  } => try_view_bid(auction, &env.sender),
    }
}

/// What a token contract says of itself.
#[derive(Clone, Debug, PartialEq, Eq)]
pub struct TokenInfo {
    pub name: String,
    pub symbol: String,
    pub decimals: u8,
    pub total_supply: Option<u128>,
}

/// A token contract's address, and what the contract says of itself.
#[derive(Clone, Debug, PartialEq, Eq)]
pub struct Token {
    pub contract_address: String,
    pub token_info: TokenInfo,
}

/// The questions that an auction answers.
#[derive(Clone, Debug, PartialEq, Eq)]
pub enum QueryMsg {
    /// What is for sale, and where the auction stands.
    AuctionInfo {},
    /// What a proposed credit is worth as a bid.
    CalculateProposal { proposal: Proposal },
}

/// The answers to questions.
#[derive(Clone, Debug, PartialEq, Eq)]
pub enum QueryAnswer {
    AuctionInfo {
        /// The token that is for sale.
        sell_token: Token,
        /// The token in which bids are made.
        bid_token: Token,
        /// How many sale tokens make up the lot.
        required_amount: u128,
        /// The highest bid that is accepted, where the auction has an estimate.
        average_bid: Option<u128>,
        /// The seller's description of the lot.
        description: Option<String>,
        /// The address of the auction.
        auction_address: String,
        /// Where the auction stands.
        status: String,
        /// The amount of the winning bid, once there is one.
        winning_bid: Option<u128>,
    },
    CalculateProposal {
        /// The bid that the proposal is worth, where it is below the lot.
        credit_proposal: Option<u128>,
        /// Whether the proposal is worth a bid.
        message: String,
    },
}

/// The estimate that an auction holds, if its ceiling rule has one.
pub open spec fn estimate_of(policy: BidAcceptancePolicy) -> Option<u128> {
    match policy {
        BidAcceptancePolicy::BelowRequired => None,
        BidAcceptancePolicy::UpToEstimate { average_bid } => Some(average_bid),
    }
}

/// Whether `answer` describes the auction `a` and hands on what the two token contracts
/// say of themselves.
pub open spec fn describes(
    answer: QueryAnswer,
    a: AuctionView,
    sell_token_info: TokenInfo,
    bid_token_info: TokenInfo,
) -> bool {
    &&& answer matches QueryAnswer::AuctionInfo {
        sell_token,
        bid_token,
        required_amount,
        average_bid,
        description,
        auction_address,
        status,
        winning_bid,
    }
    &&& sell_token.contract_address@ == a.sell_contract.address
    &&& sell_token.token_info == sell_token_info
    &&& bid_token.contract_address@ == a.bid_contract.address
    &&& bid_token.token_info == bid_token_info
    &&& required_amount == a.required_amount
    &&& average_bid == estimate_of(a.policy)
    &&& text_of(description) == a.description
    &&& auction_address@ == a.auction_addr
    &&& status@ == a.status().text()
    &&& winning_bid == if a.winning_bid == 0 {
        None
    } else {
        Some(a.winning_bid)
    }
}

/// Describes the auction: the two tokens, the lot, the description, where the auction
/// stands, and the winning bid once there is one.
pub fn try_query_info(auction: &Auction, sell_token_info: TokenInfo, bid_token_info: TokenInfo) -> (r:
    QueryAnswer)
    ensures
        describes(r, auction@, sell_token_info, bid_token_info),
{
    let winning_bid = if auction.winning_bid() == 0 {
        None
    } else {
        Some(auction.winning_bid())
    };
    let average_bid = match auction.policy() {
        BidAcceptancePolicy::BelowRequired => None,
        BidAcceptancePolicy::UpToEstimate { average_bid } => Some(average_bid),
    };
    let description = match auction.description() {
        Some(text) => Some(text.clone()),
        None => None,
    };
    QueryAnswer::AuctionInfo {
        sell_token: Token {
            contract_address: auction.sell_contract().address.clone(),
            token_info: sell_token_info,
        },
        bid_token: Token {
            contract_address: auction.bid_contract().address.clone(),
            token_info: bid_token_info,
        },
        required_amount: auction.required_amount(),
        average_bid,
        description,
        auction_address: auction.auction_addr().clone(),
        status: auction.status().render(),
        winning_bid,
    }
}

/// Whether `answer` says what `proposal` is worth as a bid against a lot of
/// `required_amount`.
pub open spec fn appraises(answer: QueryAnswer, required_amount: u128, proposal: Proposal) -> bool {
    &&& answer matches QueryAnswer::CalculateProposal { credit_proposal, message }
    &&& credit_proposal == proposal_bid(required_amount, proposal)
    &&& message@ == if credit_proposal is Some {
        "Good proposal, mate!"@
    } else {
        "Try another proposition"@
    }
}

/// Says what a proposed credit is worth as a bid: its worth in tokens where that is less
/// than the lot. `None` where the worth cannot be computed.
pub fn try_calculate_proposal(auction: &Auction, proposal: Proposal) -> (r: Option<QueryAnswer>)
    ensures
        r is Some <==> credit_fits(proposal.sum, proposal.interest_rate, proposal.time),
        r matches Some(answer) ==> appraises(answer, auction@.required_amount, proposal),
{
    let worth = match credit_worth(proposal.sum, proposal.interest_rate, proposal.time) {
        Some(v) => v,
        None => {
            return None;
        },
    };
    if worth < auction.required_amount() {
        Some(
            QueryAnswer::CalculateProposal {
                credit_proposal: Some(worth),
                message: "Good proposal, mate!".to_owned(),
            },
        )
    } else {
        Some(
            QueryAnswer::CalculateProposal {
                credit_proposal: None,
                message: "Try another proposition".to_owned(),
            },
        )
    }
}

/// Answers a question. What the two token contracts say of themselves is handed on in the
/// description of the auction. `None` where the worth of a proposal cannot be computed.
pub fn query(auction: &Auction, msg: QueryMsg, sell_token_info: TokenInfo, bid_token_info: TokenInfo) -> (r:
    Option<QueryAnswer>)
    ensures
        match msg {
            QueryMsg::AuctionInfo {  } => r matches Some(answer) && describes(
                answer,
                auction@,
                sell_token_info,
                bid_token_info,
            ),
            QueryMsg::CalculateProposal { proposal } => {
                &&& r is Some <==> credit_fits(proposal.sum, proposal.interest_rate, proposal.time)
                &&& r matches Some(answer) ==> appraises(answer, auction@.required_amount, proposal)
            },
        },
{
    match msg {
        QueryMsg::AuctionInfo {  } => Some(try_query_info(auction, sell_token_info, bid_token_info)),
        QueryMsg::CalculateProposal { proposal } => try_calculate_proposal(auction, proposal),
    }
}

} // verus!

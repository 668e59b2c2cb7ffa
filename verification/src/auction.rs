//! The escrow engine: consignment, bidding and closing of one auction.

use vstd::prelude::*;
use crate::bids::{bid_of, bid_records, distinct_bidders, index_of, positive_bids, with_bid};
use crate::bids::lemma_with_bid_distinct;
use crate::bids::{Bid, BidRecord, BidStore, OwnedBid};
use crate::clock::{block_time_text, utc_text};
use crate::ledger::{transfer_views, Endpoint, Transfer, TransferView};
use crate::msg::{HandleAnswer, HandleAnswerView, Notice, Outcome, OutcomeView, ResponseStatus};
use crate::settle::{amount_improves, improves, select_winner, winner_index, AuctionDirection};
use crate::snip20::{ContractInfo, ContractView};

verus! {

/// The ceiling that a bid must respect to be accepted.
#[derive(Clone, Copy, Debug, PartialEq, Eq, Structural)]
pub enum BidAcceptancePolicy {
    /// A bid must be strictly less than the amount that is for sale.
    BelowRequired,
    /// A bid must not exceed the estimate made when the auction was created.
    UpToEstimate { average_bid: u128 },
}

/// What becomes of a bid of zero tokens.
#[derive(Clone, Copy, Debug, PartialEq, Eq, Structural)]
pub enum ZeroBidPolicy {
    /// The call fails with an error.
    HardError,
    /// The call succeeds with a failure status; there is nothing to hand back.
    SoftRefusal,
}

/// The errors with which an operation is rejected outright: nothing changes and nothing is
/// transferred.
#[derive(Clone, Copy, Debug, PartialEq, Eq, Structural)]
pub enum AuctionError {
    /// A drain of leftover funds was asked for before the auction was closed.
    ReturnAllBeforeEnd,
    /// Someone other than the seller tried to close the auction.
    NotSeller,
    /// The seller asked to close only if there are bids, and there are none.
    NoActiveBids,
    /// A bid of zero tokens, where the auction treats that as an error.
    ZeroBid,
}

impl AuctionError {
    /// The wording of the error.
    pub open spec fn text(self) -> Seq<char> {
        match self {
            AuctionError::ReturnAllBeforeEnd =>
                "return_all can only be executed after the auction has ended"@,
            AuctionError::NotSeller => "Only auction creator can finalize the sale"@,
            AuctionError::NoActiveBids => "Did not close because there are no active bids"@,
            AuctionError::ZeroBid => "Bid must be greater than 0"@,
        }
    }

    /// The error as a string.
    pub fn message(self) -> (r: String)
        ensures
            r@ == self.text(),
    {
        match self {
            AuctionError::ReturnAllBeforeEnd =>
                "return_all can only be executed after the auction has ended".to_owned(),
            AuctionError::NotSeller => "Only auction creator can finalize the sale".to_owned(),
            AuctionError::NoActiveBids => "Did not close because there are no active bids".to_owned(),
            AuctionError::ZeroBid => "Bid must be greater than 0".to_owned(),
        }
    }
}

/// The text of an optional string.
pub open spec fn text_of(o: Option<String>) -> Option<Seq<char>> {
    match o {
        Some(s) => Some(s@),
        None => None,
    }
}

/// The refunds of all bids in `s`, one instruction per entry, in the store's order.
pub open spec fn refunds(s: Seq<BidRecord>) -> Seq<TransferView> {
    s.map_values(
        |r: BidRecord|
            TransferView { endpoint: Endpoint::BidToken, recipient: r.bidder, amount: r.bid.amount },
    )
}

/// The mathematical state of an auction.
pub struct AuctionView {
    pub auction_addr: Seq<char>,
    pub seller: Seq<char>,
    pub sell_contract: ContractView,
    pub bid_contract: ContractView,
    pub direction: AuctionDirection,
    pub policy: BidAcceptancePolicy,
    pub zero_bids: ZeroBidPolicy,
    pub required_amount: u128,
    pub currently_consigned: u128,
    pub tokens_consigned: bool,
    pub is_completed: bool,
    pub winning_bid: u128,
    pub description: Option<Seq<char>>,
    pub bids: Seq<BidRecord>,
}

impl AuctionView {
    /// The invariant of every auction: the two token contracts differ, something is for
    /// sale, no more is consigned than is for sale, an open auction whose lot is consigned
    /// holds the whole lot, no bidder has two bids, and every bid offers something.
    pub open spec fn wf(self) -> bool {
        &&& self.sell_contract.address != self.bid_contract.address
        &&& self.required_amount > 0
        &&& self.currently_consigned <= self.required_amount
        &&& (self.tokens_consigned && !self.is_completed ==> self.currently_consigned
            == self.required_amount)
        &&& distinct_bidders(self.bids)
        &&& positive_bids(self.bids)
    }

    /// Whether a consignment by `depositor` is handed back untouched.
    pub open spec fn consign_refused(self, depositor: Seq<char>) -> bool {
        depositor != self.seller || self.is_completed || self.tokens_consigned
    }

    /// The state after `depositor` has deposited `amount` sale tokens.
    pub open spec fn after_consign(self, depositor: Seq<char>, amount: u128) -> AuctionView {
        if self.consign_refused(depositor) {
            self
        } else if self.currently_consigned + amount < self.required_amount {
            AuctionView { currently_consigned: (self.currently_consigned + amount) as u128, ..self }
        } else {
            AuctionView { tokens_consigned: true, currently_consigned: self.required_amount, ..self }
        }
    }

    /// The transfers and the answer that a deposit of `amount` sale tokens by `depositor`
    /// gives rise to.
    pub open spec fn consign_outcome(self, depositor: Seq<char>, amount: u128) -> OutcomeView {
        let total = self.currently_consigned + amount;
        if self.consign_refused(depositor) {
            OutcomeView {
                transfers: seq![
                    TransferView { endpoint: Endpoint::SaleToken, recipient: depositor, amount },
                ],
                answer: HandleAnswerView::Consign {
                    status: ResponseStatus::Failure,
                    message: if depositor != self.seller {
                        Notice::ConsignNotSeller.text()
                    } else if self.is_completed {
                        Notice::ConsignAfterEnd.text()
                    } else {
                        Notice::ConsignAlreadyFull.text()
                    },
                    amount_consigned: None,
                    amount_needed: None,
                    amount_returned: Some(amount),
                },
            }
        } else if total < self.required_amount {
            OutcomeView {
                transfers: seq![],
                answer: HandleAnswerView::Consign {
                    status: ResponseStatus::Failure,
                    message: Notice::ConsignShort.text(),
                    amount_consigned: Some(total as u128),
                    amount_needed: Some((self.required_amount - total) as u128),
                    amount_returned: None,
                },
            }
        } else if total == self.required_amount {
            OutcomeView {
                transfers: seq![],
                answer: HandleAnswerView::Consign {
                    status: ResponseStatus::Success,
                    message: Notice::ConsignFull.text(),
                    amount_consigned: Some(self.required_amount),
                    amount_needed: None,
                    amount_returned: None,
                },
            }
        } else {
            OutcomeView {
                transfers: seq![
                    TransferView {
                        endpoint: Endpoint::SaleToken,
                        recipient: depositor,
                        amount: (total - self.required_amount) as u128,
                    },
                ],
                answer: HandleAnswerView::Consign {
                    status: ResponseStatus::Success,
                    message: Notice::ConsignFullWithExcess.text(),
                    amount_consigned: Some(self.required_amount),
                    amount_needed: None,
                    amount_returned: Some((total - self.required_amount) as u128),
                },
            }
        }
    }

    /// Whether `amount` exceeds what the auction accepts as a bid.
    pub open spec fn over_ceiling(self, amount: u128) -> bool {
        match self.policy {
            BidAcceptancePolicy::BelowRequired => amount >= self.required_amount,
            BidAcceptancePolicy::UpToEstimate { average_bid } => amount > average_bid,
        }
    }

    /// The error with which a bid of `amount` is rejected outright, if it is.
    pub open spec fn bid_error(self, amount: u128) -> Option<AuctionError> {
        if !self.is_completed && amount == 0 && self.zero_bids == ZeroBidPolicy::HardError {
            Some(AuctionError::ZeroBid)
        } else {
            None
        }
    }

    /// Whether a bid of `amount` by `bidder` becomes the bidder's standing offer.
    pub open spec fn bid_accepted(self, bidder: Seq<char>, amount: u128) -> bool {
        &&& !self.is_completed
        &&& amount > 0
        &&& !self.over_ceiling(amount)
        &&& (bid_of(self.bids, bidder) matches Some(old) ==> improves(
            self.direction,
            amount,
            old.amount,
        ))
    }

    /// The state after `bidder` has deposited `amount` bid tokens at block time `now`.
    pub open spec fn after_bid(self, bidder: Seq<char>, amount: u128, now: u64) -> AuctionView {
        if self.bid_accepted(bidder, amount) {
            AuctionView { bids: with_bid(self.bids, bidder, Bid { amount, timestamp: now }), ..self }
        } else {
            self
        }
    }

    /// The transfers and the answer that a deposit of `amount` bid tokens by `bidder` gives
    /// rise to, where it is not rejected outright.
    pub open spec fn bid_outcome(self, bidder: Seq<char>, amount: u128) -> OutcomeView {
        let refund_new = seq![
            TransferView { endpoint: Endpoint::BidToken, recipient: bidder, amount },
        ];
        if self.is_completed {
            OutcomeView {
                transfers: refund_new,
                answer: HandleAnswerView::Bid {
                    status: ResponseStatus::Failure,
                    message: Notice::BidAfterEnd.text(),
                    previous_bid: None,
                    amount_bid: None,
                    amount_returned: Some(amount),
                },
            }
        } else if amount == 0 {
            OutcomeView {
                transfers: seq![],
                answer: HandleAnswerView::Bid {
                    status: ResponseStatus::Failure,
                    message: Notice::BidZero.text(),
                    previous_bid: None,
                    amount_bid: None,
                    amount_returned: None,
                },
            }
        } else if self.over_ceiling(amount) {
            OutcomeView {
                transfers: refund_new,
                answer: match self.policy {
                    BidAcceptancePolicy::BelowRequired => HandleAnswerView::Bid {
                        status: ResponseStatus::Failure,
                        message: Notice::BidOverRequired.text(),
                        previous_bid: None,
                        amount_bid: Some(self.required_amount),
                        amount_returned: Some(amount),
                    },
                    BidAcceptancePolicy::UpToEstimate { .. } => HandleAnswerView::Bid {
                        status: ResponseStatus::Failure,
                        message: Notice::BidOverEstimate.text(),
                        previous_bid: None,
                        amount_bid: None,
                        amount_returned: Some(amount),
                    },
                },
            }
        } else {
            match bid_of(self.bids, bidder) {
                None => OutcomeView {
                    transfers: seq![],
                    answer: HandleAnswerView::Bid {
                        status: ResponseStatus::Success,
                        message: Notice::BidAccepted.text(),
                        previous_bid: None,
                        amount_bid: Some(amount),
                        amount_returned: None,
                    },
                },
                Some(old) => if improves(self.direction, amount, old.amount) {
                    OutcomeView {
                        transfers: seq![
                            TransferView {
                                endpoint: Endpoint::BidToken,
                                recipient: bidder,
                                amount: old.amount,
                            },
                        ],
                        answer: HandleAnswerView::Bid {
                            status: ResponseStatus::Success,
                            message: Notice::BidReplaced.text(),
                            previous_bid: None,
                            amount_bid: Some(amount),
                            amount_returned: Some(old.amount),
                        },
                    }
                } else {
                    OutcomeView {
                        transfers: refund_new,
                        answer: HandleAnswerView::Bid {
                            status: ResponseStatus::Failure,
                            message: match self.direction {
                                AuctionDirection::Ascending => Notice::BidNotHigher.text(),
                                AuctionDirection::Descending => Notice::BidNotLower.text(),
                            },
                            previous_bid: Some(old.amount),
                            amount_bid: Some(amount),
                            amount_returned: Some(amount),
                        },
                    }
                },
            }
        }
    }

    /// Where the auction stands.
    pub open spec fn status(self) -> AuctionStatus {
        if self.is_completed {
            if self.bids.len() > 0 || self.currently_consigned > 0 {
                AuctionStatus::ClosedWithBalances
            } else {
                AuctionStatus::Closed
            }
        } else if self.tokens_consigned {
            AuctionStatus::OpenConsigned
        } else {
            AuctionStatus::OpenNotConsigned
        }
    }

    /// What `bidder` learns about their standing offer.
    pub open spec fn bid_view(self, bidder: Seq<char>) -> BidView {
        match bid_of(self.bids, bidder) {
            Some(bid) => BidView { found: true, amount: Some(bid.amount), timestamp: Some(bid.timestamp) },
            None => BidView { found: false, amount: None, timestamp: None },
        }
    }

    /// The error with which a request to close the auction is rejected, if it is.
    pub open spec fn finalize_error(self, caller: Seq<char>, only_if_bids: bool, return_all: bool) -> Option<
        AuctionError,
    > {
        if return_all && !self.is_completed {
            Some(AuctionError::ReturnAllBeforeEnd)
        } else if !return_all && caller != self.seller {
            Some(AuctionError::NotSeller)
        } else if !self.is_completed && only_if_bids && self.bids.len() == 0 {
            Some(AuctionError::NoActiveBids)
        } else {
            None
        }
    }

    /// Whether closing the auction now sells the lot: there is a bid, the lot is consigned in
    /// full, and the auction is still open.
    pub open spec fn settles(self) -> bool {
        self.bids.len() > 0 && self.tokens_consigned && !self.is_completed
    }

    /// The entry that wins where closing the auction sells the lot.
    pub open spec fn winner(self) -> BidRecord {
        self.bids[winner_index(self.bids, self.direction)]
    }

    /// The sale tokens that go back to the seller when the auction is closed.
    pub open spec fn residue(self) -> u128 {
        if self.settles() {
            0
        } else {
            self.currently_consigned
        }
    }

    /// The state after the auction has been closed, or drained once more.
    pub open spec fn after_finalize(self) -> AuctionView {
        AuctionView {
            bids: Seq::empty(),
            currently_consigned: 0,
            is_completed: true,
            winning_bid: if self.settles() {
                self.winner().bid.amount
            } else {
                self.winning_bid
            },
            ..self
        }
    }

    /// The transfers that closing the auction gives rise to: where the lot is sold, the
    /// winning bid to the seller and the lot to the winner; then every other bid back to its
    /// bidder; then what is left of the consignment back to the seller.
    pub open spec fn finalize_transfers(self) -> Seq<TransferView> {
        let swap = if self.settles() {
            seq![
                TransferView {
                    endpoint: Endpoint::BidToken,
                    recipient: self.seller,
                    amount: self.winner().bid.amount,
                },
                TransferView {
                    endpoint: Endpoint::SaleToken,
                    recipient: self.winner().bidder,
                    amount: self.required_amount,
                },
            ] + refunds(self.bids.remove(winner_index(self.bids, self.direction)))
        } else {
            refunds(self.bids)
        };
        if self.residue() > 0 {
            swap.push(
                TransferView {
                    endpoint: Endpoint::SaleToken,
                    recipient: self.seller,
                    amount: self.residue(),
                },
            )
        } else {
            swap
        }
    }

    /// The answer to closing the auction. Of the explanations the first that applies is
    /// given: the lot was sold; the consignment went back, with the reason; leftover funds
    /// were drained; the auction is closed.
    pub open spec fn finalize_answer(self, return_all: bool) -> HandleAnswerView {
        let returned = self.residue() > 0 && !return_all;
        HandleAnswerView::CloseAuction {
            status: ResponseStatus::Success,
            message: if self.settles() {
                Notice::SaleFinalized.text()
            } else if returned {
                if !self.tokens_consigned {
                    Notice::ReturnedShortConsignment.text()
                } else if self.bids.len() == 0 {
                    Notice::ReturnedUnsoldConsignment.text()
                } else {
                    Notice::ReturnedConsignment.text()
                }
            } else if return_all {
                Notice::OutstandingReturned.text()
            } else {
                Notice::Closed.text()
            },
            winning_bid: if self.settles() {
                Some(self.winner().bid.amount)
            } else {
                None
            },
            amount_returned: if returned {
                Some(self.residue())
            } else {
                None
            },
        }
    }
}

/// Where an auction stands.
#[derive(Clone, Copy, Debug, PartialEq, Eq, Structural)]
pub enum AuctionStatus {
    OpenNotConsigned,
    OpenConsigned,
    Closed,
    ClosedWithBalances,
}

impl AuctionStatus {
    /// The status in words.
    pub open spec fn text(self) -> Seq<char> {
        match self {
            AuctionStatus::OpenNotConsigned => "open, not yet consigned"@,
            AuctionStatus::OpenConsigned => "open, consigned"@,
            AuctionStatus::Closed => "closed"@,
            AuctionStatus::ClosedWithBalances => "closed with outstanding balances"@,
        }
    }

    /// The status as a string.
    pub fn render(self) -> (r: String)
        ensures
            r@ == self.text(),
    {
        match self {
            AuctionStatus::OpenNotConsigned => "open, not yet consigned".to_owned(),
            AuctionStatus::OpenConsigned => "open, consigned".to_owned(),
            AuctionStatus::Closed => "closed".to_owned(),
            AuctionStatus::ClosedWithBalances => "closed with outstanding balances".to_owned(),
        }
    }
}

/// What a bidder learns about their standing offer.
#[derive(Clone, Copy, Debug, PartialEq, Eq, Structural)]
pub struct BidView {
    pub found: bool,
    pub amount: Option<u128>,
    pub timestamp: Option<u64>,
}

/// The answer that tells a bidder of a standing offer of `amount`, placed at the time that
/// `placed` spells out.
pub open spec fn bid_placed_answer(amount: u128, placed: Seq<char>) -> HandleAnswerView {
    HandleAnswerView::Bid {
        status: ResponseStatus::Success,
        message: "Bid placed "@ + placed + " UTC"@,
        previous_bid: None,
        amount_bid: Some(amount),
        amount_returned: None,
    }
}

/// The answer that tells `bidder` that they have no standing offer.
pub open spec fn no_bid_answer(bidder: Seq<char>) -> HandleAnswerView {
    HandleAnswerView::Bid {
        status: ResponseStatus::Failure,
        message: "No active bid for address: "@ + bidder,
        previous_bid: None,
        amount_bid: None,
        amount_returned: None,
    }
}

/// Builds the answer that tells a bidder of a standing offer of `amount`, placed at the time
/// that `placed` spells out.
pub fn answer_bid_placed(amount: u128, placed: &String) -> (r: HandleAnswer)
    ensures
        r@ == bid_placed_answer(amount, placed@),
{
    let message = "Bid placed ".to_owned().concat(placed.as_str()).concat(" UTC");
    HandleAnswer::Bid {
        status: ResponseStatus::Success,
        message,
        previous_bid: None,
        amount_bid: Some(amount),
        amount_returned: None,
    }
}

/// Builds the answer that tells `bidder` that they have no standing offer.
pub fn answer_no_bid(bidder: &String) -> (r: HandleAnswer)
    ensures
        r@ == no_bid_answer(bidder@),
{
    let message = "No active bid for address: ".to_owned().concat(bidder.as_str());
    HandleAnswer::Bid {
        status: ResponseStatus::Failure,
        message,
        previous_bid: None,
        amount_bid: None,
        amount_returned: None,
    }
}

/// The plain record of an auction, as it is kept between operations.
#[derive(Clone, Debug, PartialEq, Eq)]
pub struct State {
    pub auction_addr: String,
    pub seller: String,
    pub sell_contract: ContractInfo,
    pub bid_contract: ContractInfo,
    pub direction: AuctionDirection,
    pub policy: BidAcceptancePolicy,
    pub zero_bids: ZeroBidPolicy,
    pub required_amount: u128,
    pub currently_consigned: u128,
    pub tokens_consigned: bool,
    pub is_completed: bool,
    pub winning_bid: u128,
    pub description: Option<String>,
    pub bids: Vec<OwnedBid>,
}

impl View for State {
    type V = AuctionView;

    open spec fn view(&self) -> AuctionView {
        AuctionView {
            auction_addr: self.auction_addr@,
            seller: self.seller@,
            sell_contract: self.sell_contract@,
            bid_contract: self.bid_contract@,
            direction: self.direction,
            policy: self.policy,
            zero_bids: self.zero_bids,
            required_amount: self.required_amount,
            currently_consigned: self.currently_consigned,
            tokens_consigned: self.tokens_consigned,
            is_completed: self.is_completed,
            winning_bid: self.winning_bid,
            description: text_of(self.description),
            bids: bid_records(self.bids@),
        }
    }
}

/// One auction: its terms, its progress, and the standing offers.
pub struct Auction {
    auction_addr: String,
    seller: String,
    sell_contract: ContractInfo,
    bid_contract: ContractInfo,
    direction: AuctionDirection,
    policy: BidAcceptancePolicy,
    zero_bids: ZeroBidPolicy,
    required_amount: u128,
    currently_consigned: u128,
    tokens_consigned: bool,
    is_completed: bool,
    winning_bid: u128,
    description: Option<String>,
    bids: BidStore,
}

impl View for Auction {
    type V = AuctionView;

    closed spec fn view(&self) -> AuctionView {
        AuctionView {
            auction_addr: self.auction_addr@,
            seller: self.seller@,
            sell_contract: self.sell_contract@,
            bid_contract: self.bid_contract@,
            direction: self.direction,
            policy: self.policy,
            zero_bids: self.zero_bids,
            required_amount: self.required_amount,
            currently_consigned: self.currently_consigned,
            tokens_consigned: self.tokens_consigned,
            is_completed: self.is_completed,
            winning_bid: self.winning_bid,
            description: text_of(self.description),
            bids: self.bids@,
        }
    }
}

impl Auction {
    /// The invariant that every operation keeps.
    pub open spec fn wf(&self) -> bool {
        self@.wf()
    }

    /// Opens an auction of `required_amount` sale tokens. `None` where the two token
    /// contracts have the same address, or where nothing is for sale.
    pub fn new(
        auction_addr: String,
        seller: String,
        sell_contract: ContractInfo,
        bid_contract: ContractInfo,
        direction: AuctionDirection,
        policy: BidAcceptancePolicy,
        zero_bids: ZeroBidPolicy,
        required_amount: u128,
        description: Option<String>,
    ) -> (r: Option<Auction>)
        ensures
            r is Some <==> sell_contract@.address != bid_contract@.address && required_amount > 0,
            r matches Some(a) ==> a.wf() && a@ == (AuctionView {
                auction_addr: auction_addr@,
                seller: seller@,
                sell_contract: sell_contract@,
                bid_contract: bid_contract@,
                direction,
                policy,
                zero_bids,
                required_amount,
                currently_consigned: 0,
                tokens_consigned: false,
                is_completed: false,
                winning_bid: 0,
                description: text_of(description),
                bids: Seq::empty(),
            }),
    {
        if sell_contract.address == bid_contract.address || required_amount == 0 {
            return None;
        }
        Some(
            Auction {
                auction_addr,
                seller,
                sell_contract,
                bid_contract,
                direction,
                policy,
                zero_bids,
                required_amount,
                currently_consigned: 0,
                tokens_consigned: false,
                is_completed: false,
                winning_bid: 0,
                description,
                bids: BidStore::new(),
            },
        )
    }

    /// Takes up an auction from its record. `None` where the record breaks the invariant.
    pub fn restore(state: State) -> (r: Option<Auction>)
        ensures
            r is Some <==> state@.wf(),
            r matches Some(a) ==> a.wf() && a@ == state@,
    {
        if state.sell_contract.address == state.bid_contract.address || state.required_amount == 0
            || state.currently_consigned > state.required_amount || (state.tokens_consigned
            && !state.is_completed && state.currently_consigned != state.required_amount) {
            return None;
        }
        let bids = match BidStore::from_entries(state.bids) {
            Some(bids) => bids,
            None => {
                return None;
            },
        };
        if !bids.all_positive() {
            return None;
        }
        Some(
            Auction {
                auction_addr: state.auction_addr,
                seller: state.seller,
                sell_contract: state.sell_contract,
                bid_contract: state.bid_contract,
                direction: state.direction,
                policy: state.policy,
                zero_bids: state.zero_bids,
                required_amount: state.required_amount,
                currently_consigned: state.currently_consigned,
                tokens_consigned: state.tokens_consigned,
                is_completed: state.is_completed,
                winning_bid: state.winning_bid,
                description: state.description,
                bids,
            },
        )
    }

    /// The record of the auction.
    pub fn into_state(self) -> (r: State)
        ensures
            r@ == self@,
    {
        State {
            auction_addr: self.auction_addr,
            seller: self.seller,
            sell_contract: self.sell_contract,
            bid_contract: self.bid_contract,
            direction: self.direction,
            policy: self.policy,
            zero_bids: self.zero_bids,
            required_amount: self.required_amount,
            currently_consigned: self.currently_consigned,
            tokens_consigned: self.tokens_consigned,
            is_completed: self.is_completed,
            winning_bid: self.winning_bid,
            description: self.description,
            bids: self.bids.into_entries(),
        }
    }

    /// The address of the auction itself.
    pub fn auction_addr(&self) -> (r: &String)
        ensures
            r@ == self@.auction_addr,
    {
        &self.auction_addr
    }

    /// The identity that created the auction and sells the lot.
    pub fn seller(&self) -> (r: &String)
        ensures
            r@ == self@.seller,
    {
        &self.seller
    }

    /// The contract of the token that is for sale.
    pub fn sell_contract(&self) -> (r: &ContractInfo)
        ensures
            r@ == self@.sell_contract,
    {
        &self.sell_contract
    }

    /// The contract of the token in which bids are made.
    pub fn bid_contract(&self) -> (r: &ContractInfo)
        ensures
            r@ == self@.bid_contract,
    {
        &self.bid_contract
    }

    /// Which way the bidding runs.
    pub fn direction(&self) -> (r: AuctionDirection)
        ensures
            r == self@.direction,
    {
        self.direction
    }

    /// The ceiling rule for bids.
    pub fn policy(&self) -> (r: BidAcceptancePolicy)
        ensures
            r == self@.policy,
    {
        self.policy
    }

    /// What becomes of a bid of zero tokens.
    pub fn zero_bids(&self) -> (r: ZeroBidPolicy)
        ensures
            r == self@.zero_bids,
    {
        self.zero_bids
    }

    /// How many sale tokens make up the lot.
    pub fn required_amount(&self) -> (r: u128)
        ensures
            r == self@.required_amount,
    {
        self.required_amount
    }

    /// How many sale tokens are held in escrow.
    pub fn currently_consigned(&self) -> (r: u128)
        ensures
            r == self@.currently_consigned,
    {
        self.currently_consigned
    }

    /// Whether the lot has been consigned in full.
    pub fn tokens_consigned(&self) -> (r: bool)
        ensures
            r == self@.tokens_consigned,
    {
        self.tokens_consigned
    }

    /// Whether the auction is closed.
    pub fn is_completed(&self) -> (r: bool)
        ensures
            r == self@.is_completed,
    {
        self.is_completed
    }

    /// The amount of the winning bid; zero while there is none.
    pub fn winning_bid(&self) -> (r: u128)
        ensures
            r == self@.winning_bid,
    {
        self.winning_bid
    }

    /// The seller's description of the lot.
    pub fn description(&self) -> (r: &Option<String>)
        ensures
            text_of(*r) == self@.description,
    {
        &self.description
    }

    /// The standing offers.
    pub fn bids(&self) -> (r: &BidStore)
        ensures
            r@ == self@.bids,
            self.wf() ==> r.wf(),
    {
        &self.bids
    }

    /// Where the auction stands.
    pub fn status(&self) -> (r: AuctionStatus)
        ensures
            r == self@.status(),
    {
        if self.is_completed {
            if !self.bids.is_empty() || self.currently_consigned > 0 {
                AuctionStatus::ClosedWithBalances
            } else {
                AuctionStatus::Closed
            }
        } else if self.tokens_consigned {
            AuctionStatus::OpenConsigned
        } else {
            AuctionStatus::OpenNotConsigned
        }
    }

    /// What `bidder` learns about their standing offer: whether there is one, and if so its
    /// amount and the block time at which it was accepted.
    pub fn view_bid(&self, bidder: &String) -> (r: BidView)
        requires
            self.wf(),
        ensures
            r == self@.bid_view(bidder@),
    {
        match self.bids.get(bidder) {
            Some(bid) => BidView { found: true, amount: Some(bid.amount), timestamp: Some(bid.timestamp) },
            None => BidView { found: false, amount: None, timestamp: None },
        }
    }

    /// The answer to `bidder`'s question about their standing offer, with the time of the
    /// offer spelt out. `None` where the offer's time lies beyond what the calendar holds.
    pub fn try_view_bid(&self, bidder: &String) -> (r: Option<HandleAnswer>)
        requires
            self.wf(),
        ensures
            match bid_of(self@.bids, bidder@) {
                None => r matches Some(answer) && answer@ == no_bid_answer(bidder@),
                Some(bid) => {
                    &&& r matches Some(answer) ==> bid.timestamp <= i64::MAX && answer@
                        == bid_placed_answer(bid.amount, utc_text(bid.timestamp as i64))
                    &&& bid.timestamp <= crate::clock::LAST_FOUR_DIGIT_SECOND ==> r is Some
                },
            },
    {
        match self.bids.get(bidder) {
            Some(bid) => match block_time_text(bid.timestamp) {
                Some(placed) => Some(answer_bid_placed(bid.amount, &placed)),
                None => None,
            },
            None => Some(answer_no_bid(bidder)),
        }
    }

    /// Takes a deposit of `amount` sale tokens by `owner`. A deposit by anyone but the
    /// seller, after the auction is closed, or after the lot is consigned in full goes back
    /// whole. Otherwise it counts towards the lot, and what exceeds the lot goes back.
    pub fn try_consign(&mut self, owner: String, amount: u128) -> (r: Outcome)
        requires
            old(self).wf(),
        ensures
            final(self).wf(),
            final(self)@ == old(self)@.after_consign(owner@, amount),
            r@ == old(self)@.consign_outcome(owner@, amount),
            r.state_changed == (final(self)@ != old(self)@),
    {
        let refusal = if !(owner == self.seller) {
            Some(Notice::ConsignNotSeller)
        } else if self.is_completed {
            Some(Notice::ConsignAfterEnd)
        } else if self.tokens_consigned {
            Some(Notice::ConsignAlreadyFull)
        } else {
            None
        };
        if let Some(notice) = refusal {
            let mut transfers: Vec<Transfer> = Vec::new();
            transfers.push(Transfer { endpoint: Endpoint::SaleToken, recipient: owner, amount });
            let r = Outcome {
                transfers,
                answer: HandleAnswer::Consign {
                    status: ResponseStatus::Failure,
                    message: notice.render(),
                    amount_consigned: None,
                    amount_needed: None,
                    amount_returned: Some(amount),
                },
                state_changed: false,
            };
            assert(r@.transfers =~= old(self)@.consign_outcome(owner@, amount).transfers);
            return r;
        }
        let missing: u128 = self.required_amount - self.currently_consigned;
        let mut transfers: Vec<Transfer> = Vec::new();
        if amount < missing {
            self.currently_consigned = self.currently_consigned + amount;
            let r = Outcome {
                transfers,
                answer: HandleAnswer::Consign {
                    status: ResponseStatus::Failure,
                    message: Notice::ConsignShort.render(),
                    amount_consigned: Some(self.currently_consigned),
                    amount_needed: Some(missing - amount),
                    amount_returned: None,
                },
                state_changed: amount > 0,
            };
            assert(r@.transfers =~= old(self)@.consign_outcome(owner@, amount).transfers);
            r
        } else {
            self.tokens_consigned = true;
            self.currently_consigned = self.required_amount;
            let excess: u128 = amount - missing;
            if excess > 0 {
                transfers.push(
                    Transfer { endpoint: Endpoint::SaleToken, recipient: owner, amount: excess },
                );
                let r = Outcome {
                    transfers,
                    answer: HandleAnswer::Consign {
                        status: ResponseStatus::Success,
                        message: Notice::ConsignFullWithExcess.render(),
                        amount_consigned: Some(self.required_amount),
                        amount_needed: None,
                        amount_returned: Some(excess),
                    },
                    state_changed: true,
                };
                assert(r@.transfers =~= old(self)@.consign_outcome(owner@, amount).transfers);
                r
            } else {
                let r = Outcome {
                    transfers,
                    answer: HandleAnswer::Consign {
                        status: ResponseStatus::Success,
                        message: Notice::ConsignFull.render(),
                        amount_consigned: Some(self.required_amount),
                        amount_needed: None,
                        amount_returned: None,
                    },
                    state_changed: true,
                };
                assert(r@.transfers =~= old(self)@.consign_outcome(owner@, amount).transfers);
                r
            }
        }
    }

    /// Takes a deposit of `amount` bid tokens by `bidder` at block time `now`. After the
    /// auction is closed, above the ceiling, or where it does not improve on the bidder's
    /// standing offer, the deposit goes back whole and nothing changes. Otherwise it becomes
    /// the bidder's standing offer, and the offer that it replaces goes back.
    pub fn try_bid(&mut self, bidder: String, amount: u128, now: u64) -> (r: Result<
        Outcome,
        AuctionError,
    >)
        requires
            old(self).wf(),
        ensures
            final(self).wf(),
            final(self)@ == old(self)@.after_bid(bidder@, amount, now),
            match r {
                Ok(outcome) => {
                    &&& old(self)@.bid_error(amount) is None
                    &&& outcome@ == old(self)@.bid_outcome(bidder@, amount)
                    &&& outcome.state_changed == old(self)@.bid_accepted(bidder@, amount)
                    &&& outcome.state_changed == (final(self)@ != old(self)@)
                },
                Err(e) => old(self)@.bid_error(amount) == Some(e),
            },
    {
        let ghost before = self@;
        proof {
            lemma_with_bid_distinct(before.bids, bidder@, Bid { amount, timestamp: now });
        }
        if self.is_completed {
            return Ok(
                refuse_bid(bidder, amount, Notice::BidAfterEnd, None, None),
            );
        }
        if amount == 0 {
            return match self.zero_bids {
                ZeroBidPolicy::HardError => Err(AuctionError::ZeroBid),
                ZeroBidPolicy::SoftRefusal => {
                    let r = Outcome {
                        transfers: Vec::new(),
                        answer: HandleAnswer::Bid {
                            status: ResponseStatus::Failure,
                            message: Notice::BidZero.render(),
                            previous_bid: None,
                            amount_bid: None,
                            amount_returned: None,
                        },
                        state_changed: false,
                    };
                    assert(r@.transfers =~= before.bid_outcome(bidder@, amount).transfers);
                    Ok(r)
                },
            };
        }
        match self.policy {
            BidAcceptancePolicy::BelowRequired => {
                if amount >= self.required_amount {
                    return Ok(
                        refuse_bid(
                            bidder,
                            amount,
                            Notice::BidOverRequired,
                            None,
                            Some(self.required_amount),
                        ),
                    );
                }
            },
            BidAcceptancePolicy::UpToEstimate { average_bid } => {
                if amount > average_bid {
                    return Ok(refuse_bid(bidder, amount, Notice::BidOverEstimate, None, None));
                }
            },
        }
        let standing = self.bids.get(&bidder);
        match standing {
            Some(old_bid) => {
                if !amount_improves(self.direction, amount, old_bid.amount) {
                    let notice = match self.direction {
                        AuctionDirection::Ascending => Notice::BidNotHigher,
                        AuctionDirection::Descending => Notice::BidNotLower,
                    };
                    return Ok(
                        refuse_bid(bidder, amount, notice, Some(old_bid.amount), Some(amount)),
                    );
                }
                self.bids.upsert(bidder.clone(), Bid { amount, timestamp: now });
                proof {
                    let i = index_of(before.bids, bidder@);
                    assert(self@.bids[i].bid.amount != before.bids[i].bid.amount);
                }
                let mut transfers: Vec<Transfer> = Vec::new();
                transfers.push(
                    Transfer {
                        endpoint: Endpoint::BidToken,
                        recipient: bidder,
                        amount: old_bid.amount,
                    },
                );
                let r = Outcome {
                    transfers,
                    answer: HandleAnswer::Bid {
                        status: ResponseStatus::Success,
                        message: Notice::BidReplaced.render(),
                        previous_bid: None,
                        amount_bid: Some(amount),
                        amount_returned: Some(old_bid.amount),
                    },
                    state_changed: true,
                };
                assert(r@.transfers =~= before.bid_outcome(bidder@, amount).transfers);
                Ok(r)
            },
            None => {
                self.bids.upsert(bidder, Bid { amount, timestamp: now });
                assert(self@.bids.len() != before.bids.len());
                let r = Outcome {
                    transfers: Vec::new(),
                    answer: HandleAnswer::Bid {
                        status: ResponseStatus::Success,
                        message: Notice::BidAccepted.render(),
                        previous_bid: None,
                        amount_bid: Some(amount),
                        amount_returned: None,
                    },
                    state_changed: true,
                };
                assert(r@.transfers =~= before.bid_outcome(bidder@, amount).transfers);
                Ok(r)
            },
        }
    }

    /// Closes the auction, or with `return_all` drains what a closed auction still holds.
    /// Only the seller may close; a drain is open to anyone once the auction is closed; with
    /// `only_if_bids` an open auction without bids stays open. Where the lot is consigned
    /// in full and there is a bid, the best bid is swapped against the lot. Every other bid
    /// goes back to its bidder, and what is left of the consignment goes back to the seller.
    pub fn try_finalize(&mut self, caller: &String, only_if_bids: bool, return_all: bool) -> (r: Result<
        Outcome,
        AuctionError,
    >)
        requires
            old(self).wf(),
        ensures
            final(self).wf(),
            match r {
                Ok(outcome) => {
                    &&& old(self)@.finalize_error(caller@, only_if_bids, return_all) is None
                    &&& final(self)@ == old(self)@.after_finalize()
                    &&& outcome@.transfers == old(self)@.finalize_transfers()
                    &&& outcome@.answer == old(self)@.finalize_answer(return_all)
                    &&& outcome.state_changed == (final(self)@ != old(self)@)
                },
                Err(e) => {
                    &&& old(self)@.finalize_error(caller@, only_if_bids, return_all) == Some(e)
                    &&& final(self)@ == old(self)@
                },
            },
    {
        let ghost before = self@;
        if return_all && !self.is_completed {
            return Err(AuctionError::ReturnAllBeforeEnd);
        }
        if !return_all && !(*caller == self.seller) {
            return Err(AuctionError::NotSeller);
        }
        if !self.is_completed && only_if_bids && self.bids.is_empty() {
            return Err(AuctionError::NoActiveBids);
        }
        let mut transfers: Vec<Transfer> = Vec::new();
        let mut winning_amount: Option<u128> = None;
        let mut amount_returned: Option<u128> = None;
        let no_bids = self.bids.is_empty();
        let consigned_in_full = self.tokens_consigned;
        let state_changed = !no_bids || self.currently_consigned > 0 || !self.is_completed;
        if !no_bids {
            if self.tokens_consigned && !self.is_completed {
                let w = select_winner(&self.bids, self.direction);
                let winner = self.bids.take(w);
                transfers.push(
                    Transfer {
                        endpoint: Endpoint::BidToken,
                        recipient: self.seller.clone(),
                        amount: winner.bid.amount,
                    },
                );
                transfers.push(
                    Transfer {
                        endpoint: Endpoint::SaleToken,
                        recipient: winner.bidder,
                        amount: self.required_amount,
                    },
                );
                self.currently_consigned = 0;
                winning_amount = Some(winner.bid.amount);
                self.winning_bid = winner.bid.amount;
            }
            refund_all(&self.bids, &mut transfers);
            self.bids.clear();
        }
        assert(refunds(Seq::<BidRecord>::empty()) =~= Seq::<TransferView>::empty());
        if self.currently_consigned > 0 {
            transfers.push(
                Transfer {
                    endpoint: Endpoint::SaleToken,
                    recipient: self.seller.clone(),
                    amount: self.currently_consigned,
                },
            );
            if !return_all {
                amount_returned = Some(self.currently_consigned);
            }
            self.currently_consigned = 0;
        }
        self.is_completed = true;
        assert(transfer_views(transfers@) =~= before.finalize_transfers());
        assert(self@.bids =~= Seq::<BidRecord>::empty());
        assert(state_changed == (self@ != before)) by {
            if !state_changed {
                assert(before.bids =~= Seq::<BidRecord>::empty());
            } else if !no_bids {
                assert(before.bids.len() != self@.bids.len());
            }
        }
        let notice = if winning_amount.is_some() {
            Notice::SaleFinalized
        } else if amount_returned.is_some() {
            if !consigned_in_full {
                Notice::ReturnedShortConsignment
            } else if no_bids {
                Notice::ReturnedUnsoldConsignment
            } else {
                Notice::ReturnedConsignment
            }
        } else if return_all {
            Notice::OutstandingReturned
        } else {
            Notice::Closed
        };
        Ok(
            Outcome {
                transfers,
                answer: HandleAnswer::CloseAuction {
                    status: ResponseStatus::Success,
                    message: notice.render(),
                    winning_bid: winning_amount,
                    amount_returned,
                },
                state_changed,
            },
        )
    }
}

/// Adds to `transfers` the refund of every bid in `bids`, in the store's order.
fn refund_all(bids: &BidStore, transfers: &mut Vec<Transfer>)
    ensures
        transfer_views(final(transfers)@) == transfer_views(old(transfers)@) + refunds(bids@),
{
    let ghost start = transfer_views(transfers@);
    let n = bids.len();
    let mut i: usize = 0;
    while i < n
        invariant
            n == bids@.len(),
            i <= n,
            transfer_views(transfers@) == start + refunds(bids@.take(i as int)),
        decreases n - i,
    {
        let entry = bids.entry(i);
        let ghost so_far = transfer_views(transfers@);
        transfers.push(
            Transfer {
                endpoint: Endpoint::BidToken,
                recipient: entry.bidder.clone(),
                amount: entry.bid.amount,
            },
        );
        proof {
            let next = TransferView {
                endpoint: Endpoint::BidToken,
                recipient: bids@[i as int].bidder,
                amount: bids@[i as int].bid.amount,
            };
            assert(transfer_views(transfers@) =~= so_far.push(next));
            assert(bids@.take(i + 1) =~= bids@.take(i as int).push(bids@[i as int]));
            assert(refunds(bids@.take(i + 1)) =~= refunds(bids@.take(i as int)).push(next));
            assert(so_far.push(next) =~= start + refunds(bids@.take(i + 1)));
        }
        i = i + 1;
    }
    assert(bids@.take(n as int) =~= bids@);
}

/// The outcome of a bid that goes back whole.
fn refuse_bid(
    bidder: String,
    amount: u128,
    notice: Notice,
    previous_bid: Option<u128>,
    amount_bid: Option<u128>,
) -> (r: Outcome)
    ensures
        r@ == (OutcomeView {
            transfers: seq![
                TransferView { endpoint: Endpoint::BidToken, recipient: bidder@, amount },
            ],
            answer: HandleAnswerView::Bid {
                status: ResponseStatus::Failure,
                message: notice.text(),
                previous_bid,
                amount_bid,
                amount_returned: Some(amount),
            },
        }),
        !r.state_changed,
{
    let mut transfers: Vec<Transfer> = Vec::new();
    transfers.push(Transfer { endpoint: Endpoint::BidToken, recipient: bidder, amount });
    let r = Outcome {
        transfers,
        answer: HandleAnswer::Bid {
            status: ResponseStatus::Failure,
            message: notice.render(),
            previous_bid,
            amount_bid,
            amount_returned: Some(amount),
        },
        state_changed: false,
    };
    assert(r@.transfers =~= seq![
        TransferView { endpoint: Endpoint::BidToken, recipient: bidder@, amount },
    ]);
    r
}

} // verus!

//! What an auction is told and what it answers.

use vstd::prelude::*;
use crate::ledger::{transfer_views, Transfer, TransferView};

verus! {

/// Whether an operation did what its caller asked for.
#[derive(Clone, Copy, Debug, PartialEq, Eq, Structural)]
pub enum ResponseStatus {
    Success,
    Failure,
}

/// The explanations that an auction gives with its answers.
#[derive(Clone, Copy, Debug, PartialEq, Eq, Structural)]
pub enum Notice {
    ConsignNotSeller,
    ConsignAfterEnd,
    ConsignAlreadyFull,
    ConsignShort,
    ConsignFull,
    ConsignFullWithExcess,
    BidAfterEnd,
    BidZero,
    BidOverRequired,
    BidOverEstimate,
    BidNotHigher,
    BidNotLower,
    BidAccepted,
    BidReplaced,
    SaleFinalized,
    ReturnedConsignment,
    ReturnedShortConsignment,
    ReturnedUnsoldConsignment,
    OutstandingReturned,
    Closed,
}

impl Notice {
    /// The wording of the explanation.
    pub open spec fn text(self) -> Seq<char> {
        match self {
            Notice::ConsignNotSeller =>
                "Only auction creator can consign tokens for sale.  Your tokens have been returned"@,
            Notice::ConsignAfterEnd => "Auction has ended. Your tokens have been returned"@,
            Notice::ConsignAlreadyFull =>
                "Tokens to be sold have already been consigned. Your tokens have been returned"@,
            Notice::ConsignShort =>
                "You have not consigned the full amount to be sold. You need to consign additional tokens"@,
            Notice::ConsignFull => "Tokens to be sold have been consigned to the auction"@,
            Notice::ConsignFullWithExcess =>
                "Tokens to be sold have been consigned to the auction. Excess tokens have been returned"@,
            Notice::BidAfterEnd => "Auction has ended. Bid tokens have been returned"@,
            Notice::BidZero => "Bid must be greater than 0"@,
            Notice::BidOverRequired => "Bid was bigger than stated. Bid tokens have been returned"@,
            Notice::BidOverEstimate =>
                "Bid was greater than estimation allowed. Bid tokens have been returned"@,
            Notice::BidNotHigher =>
                "New bid less than or equal to previous bid. Newly bid tokens have been returned"@,
            Notice::BidNotLower =>
                "New bid greater than or equal to previous bid. Newly bid tokens have been returned"@,
            Notice::BidAccepted => "Bid accepted"@,
            Notice::BidReplaced => "Bid accepted. Previously bid tokens have been returned"@,
            Notice::SaleFinalized => "Sale finalized.  You have been sent the winning bid tokens"@,
            Notice::ReturnedConsignment =>
                "Auction closed.  You have been returned the consigned tokens"@,
            Notice::ReturnedShortConsignment =>
                "Auction closed.  You have been returned the consigned tokens because you did not consign the full sale amount"@,
            Notice::ReturnedUnsoldConsignment =>
                "Auction closed.  You have been returned the consigned tokens because there were no active bids"@,
            Notice::OutstandingReturned => "Outstanding funds have been returned"@,
            Notice::Closed => "Auction has been closed"@,
        }
    }

    /// The explanation as a string.
    pub fn render(self) -> (r: String)
        ensures
            r@ == self.text(),
    {
        match self {
            Notice::ConsignNotSeller =>
                "Only auction creator can consign tokens for sale.  Your tokens have been returned".to_owned(),
            Notice::ConsignAfterEnd => "Auction has ended. Your tokens have been returned".to_owned(),
            Notice::ConsignAlreadyFull =>
                "Tokens to be sold have already been consigned. Your tokens have been returned".to_owned(),
            Notice::ConsignShort =>
                "You have not consigned the full amount to be sold. You need to consign additional tokens".to_owned(),
            Notice::ConsignFull => "Tokens to be sold have been consigned to the auction".to_owned(),
            Notice::ConsignFullWithExcess =>
                "Tokens to be sold have been consigned to the auction. Excess tokens have been returned".to_owned(),
            Notice::BidAfterEnd => "Auction has ended. Bid tokens have been returned".to_owned(),
            Notice::BidZero => "Bid must be greater than 0".to_owned(),
            Notice::BidOverRequired =>
                "Bid was bigger than stated. Bid tokens have been returned".to_owned(),
            Notice::BidOverEstimate =>
                "Bid was greater than estimation allowed. Bid tokens have been returned".to_owned(),
            Notice::BidNotHigher =>
                "New bid less than or equal to previous bid. Newly bid tokens have been returned".to_owned(),
            Notice::BidNotLower =>
                "New bid greater than or equal to previous bid. Newly bid tokens have been returned".to_owned(),
            Notice::BidAccepted => "Bid accepted".to_owned(),
            Notice::BidReplaced => "Bid accepted. Previously bid tokens have been returned".to_owned(),
            Notice::SaleFinalized =>
                "Sale finalized.  You have been sent the winning bid tokens".to_owned(),
            Notice::ReturnedConsignment =>
                "Auction closed.  You have been returned the consigned tokens".to_owned(),
            Notice::ReturnedShortConsignment =>
                "Auction closed.  You have been returned the consigned tokens because you did not consign the full sale amount".to_owned(),
            Notice::ReturnedUnsoldConsignment =>
                "Auction closed.  You have been returned the consigned tokens because there were no active bids".to_owned(),
            Notice::OutstandingReturned => "Outstanding funds have been returned".to_owned(),
            Notice::Closed => "Auction has been closed".to_owned(),
        }
    }
}

/// The structured answer of an operation.
#[derive(Clone, Debug, PartialEq, Eq)]
pub enum HandleAnswer {
    /// The answer to a consignment.
    Consign {
        status: ResponseStatus,
        message: String,
        /// How much is consigned after the operation.
        amount_consigned: Option<u128>,
        /// How much is still to be consigned.
        amount_needed: Option<u128>,
        /// How much of the deposit went back.
        amount_returned: Option<u128>,
    },
    /// The answer to a bid, or to a question about one's bid.
    Bid {
        status: ResponseStatus,
        message: String,
        /// The earlier bid that stays in force.
        previous_bid: Option<u128>,
        /// The amount that the answer is about.
        amount_bid: Option<u128>,
        /// How much went back to the bidder.
        amount_returned: Option<u128>,
    },
    /// The answer to closing the auction.
    CloseAuction {
        status: ResponseStatus,
        message: String,
        /// The amount of the winning bid.
        winning_bid: Option<u128>,
        /// How much of the consignment went back to the seller.
        amount_returned: Option<u128>,
    },
    /// A bare status.
    Status { status: ResponseStatus, message: String },
}

/// What a [`HandleAnswer`] stands for.
pub enum HandleAnswerView {
    Consign {
        status: ResponseStatus,
        message: Seq<char>,
        amount_consigned: Option<u128>,
        amount_needed: Option<u128>,
        amount_returned: Option<u128>,
    },
    Bid {
        status: ResponseStatus,
        message: Seq<char>,
        previous_bid: Option<u128>,
        amount_bid: Option<u128>,
        amount_returned: Option<u128>,
    },
    CloseAuction {
        status: ResponseStatus,
        message: Seq<char>,
        winning_bid: Option<u128>,
        amount_returned: Option<u128>,
    },
    Status { status: ResponseStatus, message: Seq<char> },
}

impl View for HandleAnswer {
    type V = HandleAnswerView;

    open spec fn view(&self) -> HandleAnswerView {
        match *self {
            HandleAnswer::Consign { status, message, amount_consigned, amount_needed, amount_returned } =>
                HandleAnswerView::Consign {
                    status,
                    message: message@,
                    amount_consigned,
                    amount_needed,
                    amount_returned,
                },
            HandleAnswer::Bid { status, message, previous_bid, amount_bid, amount_returned } =>
                HandleAnswerView::Bid { status, message: message@, previous_bid, amount_bid, amount_returned },
            HandleAnswer::CloseAuction { status, message, winning_bid, amount_returned } =>
                HandleAnswerView::CloseAuction { status, message: message@, winning_bid, amount_returned },
            HandleAnswer::Status { status, message } => HandleAnswerView::Status { status, message: message@ },
        }
    }
}

/// What an operation hands back: the transfers to carry out together with the state change,
/// the answer for the caller, and whether the auction has changed and is to be written back.
#[derive(Clone, Debug, PartialEq, Eq)]
pub struct Outcome {
    pub transfers: Vec<Transfer>,
    pub answer: HandleAnswer,
    pub state_changed: bool,
}

/// What an [`Outcome`] stands for.
pub struct OutcomeView {
    pub transfers: Seq<TransferView>,
    pub answer: HandleAnswerView,
}

impl View for Outcome {
    type V = OutcomeView;

    open spec fn view(&self) -> OutcomeView {
        OutcomeView { transfers: transfer_views(self.transfers@), answer: self.answer@ }
    }
}

} // verus!

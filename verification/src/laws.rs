//! What holds of every auction, whatever is done with it.

use vstd::prelude::*;
use crate::auction::{refunds, AuctionView};
use crate::bids::{bid_of, bid_total, has_bidder, index_of, Bid, BidRecord};
use crate::bids::{lemma_total_push, lemma_total_remove, lemma_total_update, lemma_with_bid_distinct};
use crate::ledger::{lemma_sent_concat, lemma_sent_push, sent, Endpoint, TransferView};
use crate::settle::{lemma_winner_exists, winner_index, AuctionDirection};

verus! {

/// One operation on an auction.
pub enum Operation {
    /// A deposit of sale tokens.
    Consign { depositor: Seq<char>, amount: u128 },
    /// A deposit of bid tokens at block time `now`.
    Bid { bidder: Seq<char>, amount: u128, now: u64 },
    /// A request to close the auction, or to drain it.
    Finalize { caller: Seq<char>, only_if_bids: bool, return_all: bool },
}

/// Whether the auction rejects `op` with an error.
pub open spec fn rejected(a: AuctionView, op: Operation) -> bool {
    match op {
        Operation::Consign { .. } => false,
        Operation::Bid { amount, .. } => a.bid_error(amount) is Some,
        Operation::Finalize { caller, only_if_bids, return_all } => a.finalize_error(
            caller,
            only_if_bids,
            return_all,
        ) is Some,
    }
}

/// The state after `op`.
pub open spec fn step(a: AuctionView, op: Operation) -> AuctionView {
    if rejected(a, op) {
        a
    } else {
        match op {
            Operation::Consign { depositor, amount } => a.after_consign(depositor, amount),
            Operation::Bid { bidder, amount, now } => a.after_bid(bidder, amount, now),
            Operation::Finalize { .. } => a.after_finalize(),
        }
    }
}

/// The transfers that `op` gives rise to.
pub open spec fn emitted(a: AuctionView, op: Operation) -> Seq<TransferView> {
    if rejected(a, op) {
        Seq::empty()
    } else {
        match op {
            Operation::Consign { depositor, amount } => a.consign_outcome(depositor, amount).transfers,
            Operation::Bid { bidder, amount, .. } => a.bid_outcome(bidder, amount).transfers,
            Operation::Finalize { .. } => a.finalize_transfers(),
        }
    }
}

/// How many tokens of `endpoint` the operation `op` brings into escrow. An operation that is
/// rejected with an error brings nothing.
pub open spec fn deposited(a: AuctionView, op: Operation, endpoint: Endpoint) -> int {
    if rejected(a, op) {
        0
    } else {
        match op {
            Operation::Consign { amount, .. } => if endpoint == Endpoint::SaleToken {
                amount as int
            } else {
                0
            },
            Operation::Bid { amount, .. } => if endpoint == Endpoint::BidToken {
                amount as int
            } else {
                0
            },
            Operation::Finalize { .. } => 0,
        }
    }
}

/// How many tokens of `endpoint` the auction holds in escrow: the consignment, or the sum of
/// the standing offers.
pub open spec fn held(a: AuctionView, endpoint: Endpoint) -> int {
    match endpoint {
        Endpoint::SaleToken => a.currently_consigned as int,
        Endpoint::BidToken => bid_total(a.bids),
    }
}

/// The state after the operations `ops`, one after the other.
pub open spec fn run(a: AuctionView, ops: Seq<Operation>) -> AuctionView
    decreases ops.len(),
{
    if ops.len() == 0 {
        a
    } else {
        step(run(a, ops.drop_last()), ops.last())
    }
}

/// How many tokens of `endpoint` the operations `ops` bring into escrow.
pub open spec fn total_deposited(a: AuctionView, ops: Seq<Operation>, endpoint: Endpoint) -> int
    decreases ops.len(),
{
    if ops.len() == 0 {
        0
    } else {
        total_deposited(a, ops.drop_last(), endpoint) + deposited(
            run(a, ops.drop_last()),
            ops.last(),
            endpoint,
        )
    }
}

/// How many tokens of `endpoint` the operations `ops` send out of escrow.
pub open spec fn total_sent(a: AuctionView, ops: Seq<Operation>, endpoint: Endpoint) -> int
    decreases ops.len(),
{
    if ops.len() == 0 {
        0
    } else {
        total_sent(a, ops.drop_last(), endpoint) + sent(
            emitted(run(a, ops.drop_last()), ops.last()),
            endpoint,
        )
    }
}

/// The refunds of all bids move the sum of the bids at the bid token, and no sale tokens.
pub proof fn lemma_refunds_sent(s: Seq<BidRecord>)
    ensures
        sent(refunds(s), Endpoint::BidToken) == bid_total(s),
        sent(refunds(s), Endpoint::SaleToken) == 0,
    decreases s.len(),
{
    if s.len() > 0 {
        lemma_refunds_sent(s.drop_last());
        assert(refunds(s).drop_last() =~= refunds(s.drop_last()));
    }
}

/// What a single instruction moves.
pub proof fn lemma_sent_one(t: TransferView, endpoint: Endpoint)
    ensures
        sent(seq![t], endpoint) == if t.endpoint == endpoint {
            t.amount as int
        } else {
            0
        },
{
    lemma_sent_push(Seq::empty(), t, endpoint);
    assert(Seq::<TransferView>::empty().push(t) =~= seq![t]);
    assert(sent(Seq::<TransferView>::empty(), endpoint) == 0);
}

/// Every operation keeps the invariant.
pub proof fn lemma_step_wf(a: AuctionView, op: Operation)
    requires
        a.wf(),
    ensures
        step(a, op).wf(),
{
    match op {
        Operation::Bid { bidder, amount, now } => {
            lemma_with_bid_distinct(a.bids, bidder, Bid { amount, timestamp: now });
        },
        _ => {},
    }
}

/// Conservation, one operation at a time: for each of the two tokens, what was held before
/// plus what the operation brings in is what the operation sends out plus what is held
/// after.
pub proof fn lemma_step_conserves(a: AuctionView, op: Operation, endpoint: Endpoint)
    requires
        a.wf(),
    ensures
        held(a, endpoint) + deposited(a, op, endpoint) == sent(emitted(a, op), endpoint) + held(
            step(a, op),
            endpoint,
        ),
{
    if rejected(a, op) {
        return ;
    }
    match op {
        Operation::Consign { depositor, amount } => {
            let ts = a.consign_outcome(depositor, amount).transfers;
            if ts.len() == 1 {
                assert(ts =~= seq![ts[0]]);
                lemma_sent_one(ts[0], endpoint);
            }
        },
        Operation::Bid { bidder, amount, now } => {
            let ts = a.bid_outcome(bidder, amount).transfers;
            if ts.len() == 1 {
                assert(ts =~= seq![ts[0]]);
                lemma_sent_one(ts[0], endpoint);
            }
            if a.bid_accepted(bidder, amount) {
                let rec = BidRecord { bidder, bid: Bid { amount, timestamp: now } };
                if has_bidder(a.bids, bidder) {
                    lemma_total_update(a.bids, index_of(a.bids, bidder), rec);
                } else {
                    lemma_total_push(a.bids, rec);
                }
            }
        },
        Operation::Finalize { .. } => {
            let residue = TransferView {
                endpoint: Endpoint::SaleToken,
                recipient: a.seller,
                amount: a.residue(),
            };
            if a.settles() {
                lemma_winner_exists(a.bids, a.direction);
                let w = winner_index(a.bids, a.direction);
                let rest = a.bids.remove(w);
                let first = TransferView {
                    endpoint: Endpoint::BidToken,
                    recipient: a.seller,
                    amount: a.winner().bid.amount,
                };
                let second = TransferView {
                    endpoint: Endpoint::SaleToken,
                    recipient: a.winner().bidder,
                    amount: a.required_amount,
                };
                lemma_total_remove(a.bids, w);
                lemma_refunds_sent(rest);
                lemma_sent_one(first, endpoint);
                lemma_sent_push(seq![first], second, endpoint);
                assert(seq![first].push(second) =~= seq![first, second]);
                lemma_sent_concat(seq![first, second], refunds(rest), endpoint);
            } else {
                lemma_refunds_sent(a.bids);
                lemma_sent_push(refunds(a.bids), residue, endpoint);
            }
        },
    }
}

/// Conservation: after any sequence of operations on an auction, and so at every point of
/// it, for each of the two tokens what the auction held at the start plus all that was
/// deposited is all that was sent out plus what the auction holds now: the consignment for
/// the sale token, the sum of the standing offers for the bid token.
pub proof fn lemma_conservation(a: AuctionView, ops: Seq<Operation>, endpoint: Endpoint)
    requires
        a.wf(),
    ensures
        run(a, ops).wf(),
        held(a, endpoint) + total_deposited(a, ops, endpoint) == total_sent(a, ops, endpoint)
            + held(run(a, ops), endpoint),
    decreases ops.len(),
{
    if ops.len() > 0 {
        lemma_conservation(a, ops.drop_last(), endpoint);
        lemma_step_wf(run(a, ops.drop_last()), ops.last());
        lemma_step_conserves(run(a, ops.drop_last()), ops.last(), endpoint);
    }
}

/// Conservation from the start: an auction that has just been created holds nothing, so
/// after any sequence of operations all that was deposited is all that was sent out plus
/// what the auction holds.
pub proof fn lemma_conservation_from_creation(a: AuctionView, ops: Seq<Operation>, endpoint: Endpoint)
    requires
        a.wf(),
        a.currently_consigned == 0,
        a.bids.len() == 0,
    ensures
        total_deposited(a, ops, endpoint) == total_sent(a, ops, endpoint) + held(
            run(a, ops),
            endpoint,
        ),
{
    lemma_conservation(a, ops, endpoint);
}

/// Completion happens once: after a request to close the auction has succeeded, a further
/// request of either kind changes nothing, the winning bid included, and sends nothing out.
pub proof fn lemma_finalize_idempotent(a: AuctionView, first: Operation, second: Operation)
    requires
        a.wf(),
        first is Finalize,
        second is Finalize,
        !rejected(a, first),
    ensures
        step(step(a, first), second) == step(a, first),
        emitted(step(a, first), second) == Seq::<TransferView>::empty(),
        step(step(a, first), second).winning_bid == step(a, first).winning_bid,
{
    let b = step(a, first);
    assert(refunds(b.bids) =~= Seq::<TransferView>::empty());
    assert(b.after_finalize() == b);
    assert(b.finalize_transfers() =~= Seq::<TransferView>::empty());
}

/// Once closed, an auction stays closed, and once the lot is consigned in full it stays so.
/// The winning bid is set only by the operation that closes the auction, hence at most once,
/// and it is then not zero.
pub proof fn lemma_flags_never_reset(a: AuctionView, op: Operation)
    requires
        a.wf(),
    ensures
        a.is_completed ==> step(a, op).is_completed,
        a.tokens_consigned ==> step(a, op).tokens_consigned,
        step(a, op).winning_bid != a.winning_bid ==> !a.is_completed && step(a, op).is_completed
            && step(a, op).winning_bid > 0,
{
    if step(a, op).winning_bid != a.winning_bid {
        lemma_winner_exists(a.bids, a.direction);
    }
}

/// A closed auction can only be drained: whatever is done with it, it either stays as it
/// is, or gives up all that it still holds and keeps everything else; and a deposit leaves
/// it as it is.
pub proof fn lemma_closed_only_drains(a: AuctionView, op: Operation)
    requires
        a.is_completed,
    ensures
        step(a, op) == a || step(a, op) == (AuctionView {
            bids: Seq::empty(),
            currently_consigned: 0,
            ..a
        }),
        !(op is Finalize) ==> step(a, op) == a,
{
}

/// A bidder's standing offer only ever moves in the auction's direction: where a bid takes
/// the place of the bidder's earlier one, it is strictly lower in a descending auction and
/// strictly higher in an ascending one; where it does not, the earlier one stays as it was.
pub proof fn lemma_replacement_improves(
    a: AuctionView,
    bidder: Seq<char>,
    amount: u128,
    now: u64,
    old: Bid,
)
    requires
        a.wf(),
        bid_of(a.bids, bidder) == Some(old),
    ensures
        bid_of(a.after_bid(bidder, amount, now).bids, bidder) == Some(old) || bid_of(
            a.after_bid(bidder, amount, now).bids,
            bidder,
        ) == Some(Bid { amount, timestamp: now }),
        bid_of(a.after_bid(bidder, amount, now).bids, bidder) != Some(old) ==> match a.direction {
            AuctionDirection::Descending => amount < old.amount,
            AuctionDirection::Ascending => amount > old.amount,
        },
{
    lemma_with_bid_distinct(a.bids, bidder, Bid { amount, timestamp: now });
}

} // verus!

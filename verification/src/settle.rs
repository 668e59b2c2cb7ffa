//! Choosing the winning bid.

use vstd::prelude::*;
use crate::bids::{Bid, BidRecord, BidStore};

verus! {

/// Which way the bidding runs. In an ascending auction a bidder may only raise a standing
/// offer and the highest offer wins; in a descending auction a bidder may only lower it and
/// the lowest offer wins.
#[derive(Clone, Copy, Debug, PartialEq, Eq, Structural)]
pub enum AuctionDirection {
    Ascending,
    Descending,
}

/// Whether the amount `new` is strictly further along in `direction` than `old`.
pub open spec fn improves(direction: AuctionDirection, new: u128, old: u128) -> bool {
    match direction {
        AuctionDirection::Ascending => new > old,
        AuctionDirection::Descending => new < old,
    }
}

/// Whether bid `a` beats bid `b`: by its amount, or with equal amounts by its earlier time.
pub open spec fn outbids(direction: AuctionDirection, a: Bid, b: Bid) -> bool {
    improves(direction, a.amount, b.amount) || (a.amount == b.amount && a.timestamp < b.timestamp)
}

/// Whether the entry at place `w` wins: no entry beats it, and it beats every entry that
/// stands before it, so that of several entries equal in amount and time the first wins.
pub open spec fn is_winner(s: Seq<BidRecord>, direction: AuctionDirection, w: int) -> bool {
    &&& 0 <= w < s.len()
    &&& forall|j: int| 0 <= j < s.len() ==> !outbids(direction, #[trigger] s[j].bid, s[w].bid)
    &&& forall|j: int| 0 <= j < w ==> outbids(direction, s[w].bid, #[trigger] s[j].bid)
}

/// The place of the winning entry; meaningful only where `s` is not empty.
pub open spec fn winner_index(s: Seq<BidRecord>, direction: AuctionDirection) -> int {
    choose|w: int| is_winner(s, direction, w)
}

/// Compares two amounts in the auction's direction.
pub fn amount_improves(direction: AuctionDirection, new: u128, old: u128) -> (r: bool)
    ensures
        r == improves(direction, new, old),
{
    match direction {
        AuctionDirection::Ascending => new > old,
        AuctionDirection::Descending => new < old,
    }
}

/// Compares two bids in the auction's direction.
pub fn bid_outbids(direction: AuctionDirection, a: Bid, b: Bid) -> (r: bool)
    ensures
        r == outbids(direction, a, b),
{
    amount_improves(direction, a.amount, b.amount) || (a.amount == b.amount && a.timestamp
        < b.timestamp)
}

/// At most one place wins.
pub proof fn lemma_winner_unique(s: Seq<BidRecord>, direction: AuctionDirection, v: int, w: int)
    requires
        is_winner(s, direction, v),
        is_winner(s, direction, w),
    ensures
        v == w,
{
    if v < w {
        assert(outbids(direction, s[w].bid, s[v].bid));
    } else if w < v {
        assert(outbids(direction, s[v].bid, s[w].bid));
    }
}

/// Finds the winning entry of a store that is not empty.
pub fn select_winner(bids: &BidStore, direction: AuctionDirection) -> (w: usize)
    requires
        bids@.len() > 0,
    ensures
        is_winner(bids@, direction, w as int),
        w as int == winner_index(bids@, direction),
{
    let n = bids.len();
    let mut best: usize = 0;
    let mut i: usize = 1;
    while i < n
        invariant
            n == bids@.len(),
            best < i <= n,
            forall|j: int| 0 <= j < i ==> !outbids(direction, #[trigger] bids@[j].bid, bids@[best as int].bid),
            forall|j: int| 0 <= j < best ==> outbids(direction, bids@[best as int].bid, #[trigger] bids@[j].bid),
        decreases n - i,
    {
        if bid_outbids(direction, bids.entry(i).bid, bids.entry(best).bid) {
            best = i;
        }
        i = i + 1;
    }
    proof {
        assert(is_winner(bids@, direction, best as int));
        lemma_winner_unique(bids@, direction, best as int, winner_index(bids@, direction));
    }
    best
}

/// A store that is not empty has a winner.
pub proof fn lemma_winner_exists(s: Seq<BidRecord>, direction: AuctionDirection)
    requires
        s.len() > 0,
    ensures
        is_winner(s, direction, winner_index(s, direction)),
    decreases s.len(),
{
    if s.len() == 1 {
        assert(is_winner(s, direction, 0));
    } else {
        let t = s.drop_last();
        lemma_winner_exists(t, direction);
        let v = winner_index(t, direction);
        let last = s.len() - 1;
        assert forall|j: int| 0 <= j < t.len() implies t[j] == s[j] by {}
        if outbids(direction, s[last].bid, s[v].bid) {
            assert forall|j: int| 0 <= j < s.len() implies !outbids(
                direction,
                #[trigger] s[j].bid,
                s[last].bid,
            ) by {
                if j < last {
                    assert(!outbids(direction, t[j].bid, t[v].bid));
                }
            }
            assert forall|j: int| 0 <= j < last implies outbids(
                direction,
                s[last].bid,
                #[trigger] s[j].bid,
            ) by {
                assert(!outbids(direction, t[j].bid, t[v].bid));
            }
            assert(is_winner(s, direction, last));
        } else {
            assert forall|j: int| 0 <= j < s.len() implies !outbids(
                direction,
                #[trigger] s[j].bid,
                s[v].bid,
            ) by {
                if j < last {
                    assert(!outbids(direction, t[j].bid, t[v].bid));
                }
            }
            assert forall|j: int| 0 <= j < v implies outbids(direction, s[v].bid, #[trigger] s[j].bid) by {
                assert(outbids(direction, t[v].bid, t[j].bid));
            }
            assert(is_winner(s, direction, v));
        }
    }
}

/// Of two bids equal in amount, the later one never wins.
pub proof fn lemma_tie_goes_to_earlier(s: Seq<BidRecord>, direction: AuctionDirection, i: int, j: int)
    requires
        0 <= i < s.len(),
        0 <= j < s.len(),
        s[i].bid.amount == s[j].bid.amount,
        s[i].bid.timestamp < s[j].bid.timestamp,
    ensures
        winner_index(s, direction) != j,
{
    lemma_winner_exists(s, direction);
    let w = winner_index(s, direction);
    if w == j {
        assert(outbids(direction, s[i].bid, s[w].bid));
    }
}

/// Whether the entry `e` occurs in `s` and beats every other entry of `s`.
pub open spec fn beats_all_others(s: Seq<BidRecord>, direction: AuctionDirection, e: BidRecord) -> bool {
    &&& s.contains(e)
    &&& forall|j: int| 0 <= j < s.len() && s[j] != e ==> outbids(direction, e.bid, #[trigger] s[j].bid)
}

/// The winner does not depend on the order in which the bids are kept: an entry that beats
/// every other one wins wherever it stands, so two stores that hold the same entries, in
/// whatever order, have the same winner.
pub proof fn lemma_winner_order_independent(
    s1: Seq<BidRecord>,
    s2: Seq<BidRecord>,
    direction: AuctionDirection,
    e: BidRecord,
)
    requires
        beats_all_others(s1, direction, e),
        forall|x: BidRecord| s1.contains(x) <==> s2.contains(x),
    ensures
        s1[winner_index(s1, direction)] == e,
        s2[winner_index(s2, direction)] == e,
{
    lemma_beats_all_wins(s1, direction, e);
    assert(s2.contains(e));
    assert forall|j: int| 0 <= j < s2.len() && s2[j] != e implies outbids(
        direction,
        e.bid,
        #[trigger] s2[j].bid,
    ) by {
        assert(s2.contains(s2[j]));
        assert(s1.contains(s2[j]));
        let k = choose|k: int| 0 <= k < s1.len() && s1[k] == s2[j];
        assert(outbids(direction, e.bid, s1[k].bid));
    }
    lemma_beats_all_wins(s2, direction, e);
}

/// An entry that beats every other entry is the winner.
pub proof fn lemma_beats_all_wins(s: Seq<BidRecord>, direction: AuctionDirection, e: BidRecord)
    requires
        beats_all_others(s, direction, e),
    ensures
        s[winner_index(s, direction)] == e,
{
    let k = choose|k: int| 0 <= k < s.len() && s[k] == e;
    lemma_winner_exists(s, direction);
    let w = winner_index(s, direction);
    if s[w] != e {
        assert(outbids(direction, e.bid, s[w].bid));
        assert(!outbids(direction, s[k].bid, s[w].bid));
    }
}

} // verus!

//! The bid store: one standing offer per bidder, found by the bidder's identity.

use vstd::prelude::*;

verus! {

/// A standing offer: the quantity of bid tokens held in escrow for it, and the block time at
/// which it was accepted.
#[derive(Clone, Copy, Debug, PartialEq, Eq, Structural)]
pub struct Bid {
    pub amount: u128,
    pub timestamp: u64,
}

/// A bid together with the identity that placed it.
#[derive(Clone, Debug, PartialEq, Eq)]
pub struct OwnedBid {
    pub bidder: String,
    pub bid: Bid,
}

/// What an [`OwnedBid`] stands for: the bidder's identity as text, and the bid.
pub struct BidRecord {
    pub bidder: Seq<char>,
    pub bid: Bid,
}

impl View for OwnedBid {
    type V = BidRecord;

    open spec fn view(&self) -> BidRecord {
        BidRecord { bidder: self.bidder@, bid: self.bid }
    }
}

/// The records that a vector of entries stands for, in order.
pub open spec fn bid_records(v: Seq<OwnedBid>) -> Seq<BidRecord> {
    v.map_values(|e: OwnedBid| e@)
}

/// No identity occurs twice.
pub open spec fn distinct_bidders(s: Seq<BidRecord>) -> bool {
    forall|i: int, j: int| 0 <= i < j < s.len() ==> s[i].bidder != s[j].bidder
}

/// Every bid offers something.
pub open spec fn positive_bids(s: Seq<BidRecord>) -> bool {
    forall|i: int| 0 <= i < s.len() ==> (#[trigger] s[i]).bid.amount > 0
}

/// Whether `bidder` has an entry in `s`.
pub open spec fn has_bidder(s: Seq<BidRecord>, bidder: Seq<char>) -> bool {
    exists|i: int| 0 <= i < s.len() && s[i].bidder == bidder
}

/// The place of `bidder`'s entry in `s`; meaningful only where `has_bidder(s, bidder)`.
pub open spec fn index_of(s: Seq<BidRecord>, bidder: Seq<char>) -> int {
    choose|i: int| 0 <= i < s.len() && s[i].bidder == bidder
}

/// The active bid of `bidder`, if there is one.
pub open spec fn bid_of(s: Seq<BidRecord>, bidder: Seq<char>) -> Option<Bid> {
    if has_bidder(s, bidder) {
        Some(s[index_of(s, bidder)].bid)
    } else {
        None
    }
}

/// The sum of all bid amounts in `s`.
pub open spec fn bid_total(s: Seq<BidRecord>) -> int
    decreases s.len(),
{
    if s.len() == 0 {
        0
    } else {
        bid_total(s.drop_last()) + s.last().bid.amount
    }
}

/// The store after `bidder`'s offer is set to `bid`: the entry is overwritten in place where
/// there is one, and added at the end where there is none.
pub open spec fn with_bid(s: Seq<BidRecord>, bidder: Seq<char>, bid: Bid) -> Seq<BidRecord> {
    if has_bidder(s, bidder) {
        s.update(index_of(s, bidder), BidRecord { bidder, bid })
    } else {
        s.push(BidRecord { bidder, bid })
    }
}

/// The store after `bidder`'s entry is deleted; unchanged where there is none.
pub open spec fn without_bidder(s: Seq<BidRecord>, bidder: Seq<char>) -> Seq<BidRecord> {
    if has_bidder(s, bidder) {
        s.remove(index_of(s, bidder))
    } else {
        s
    }
}

/// A keyed collection of bids, at most one per bidder, kept in the order in which the bidders
/// first appeared.
pub struct BidStore {
    entries: Vec<OwnedBid>,
}

impl View for BidStore {
    type V = Seq<BidRecord>;

    closed spec fn view(&self) -> Seq<BidRecord> {
        bid_records(self.entries@)
    }
}

impl BidStore {
    /// The store's invariant: no bidder has two entries.
    pub open spec fn wf(&self) -> bool {
        distinct_bidders(self@)
    }

    /// An empty store.
    pub fn new() -> (r: BidStore)
        ensures
            r@ == Seq::<BidRecord>::empty(),
            r.wf(),
    {
        BidStore { entries: Vec::new() }
    }

    /// A store that holds `entries`, in their order; `None` where a bidder occurs twice.
    pub fn from_entries(entries: Vec<OwnedBid>) -> (r: Option<BidStore>)
        ensures
            r is Some <==> distinct_bidders(bid_records(entries@)),
            r matches Some(store) ==> store@ == bid_records(entries@) && store.wf(),
    {
        let ghost s = bid_records(entries@);
        let n = entries.len();
        let mut i: usize = 0;
        while i < n
            invariant
                n == entries@.len(),
                s == bid_records(entries@),
                i <= n,
                forall|a: int, b: int| 0 <= a < b < i ==> s[a].bidder != s[b].bidder,
            decreases n - i,
        {
            let mut j: usize = 0;
            while j < i
                invariant
                    n == entries@.len(),
                    s == bid_records(entries@),
                    i < n,
                    j <= i,
                    forall|a: int| 0 <= a < j ==> s[a].bidder != s[i as int].bidder,
                decreases i - j,
            {
                if entries[j].bidder == entries[i].bidder {
                    assert(s[j as int].bidder == s[i as int].bidder);
                    return None;
                }
                j = j + 1;
            }
            i = i + 1;
        }
        Some(BidStore { entries })
    }

    /// The entries of the store, in their order.
    pub fn into_entries(self) -> (r: Vec<OwnedBid>)
        ensures
            bid_records(r@) == self@,
    {
        self.entries
    }

    /// Whether every bid in the store offers something.
    pub fn all_positive(&self) -> (r: bool)
        ensures
            r == positive_bids(self@),
    {
        let mut i: usize = 0;
        while i < self.entries.len()
            invariant
                i <= self.entries.len(),
                forall|j: int| 0 <= j < i ==> (#[trigger] self@[j]).bid.amount > 0,
            decreases self.entries.len() - i,
        {
            if self.entries[i].bid.amount == 0 {
                assert(self@[i as int].bid.amount == 0);
                return false;
            }
            i = i + 1;
        }
        true
    }

    /// The number of active bids.
    pub fn len(&self) -> (r: usize)
        ensures
            r == self@.len(),
    {
        self.entries.len()
    }

    /// Whether no bid is active.
    pub fn is_empty(&self) -> (r: bool)
        ensures
            r == (self@.len() == 0),
    {
        self.entries.len() == 0
    }

    fn find(&self, bidder: &String) -> (r: Option<usize>)
        ensures
            match r {
                Some(i) => i < self@.len() && self@[i as int].bidder == bidder@,
                None => !has_bidder(self@, bidder@),
            },
    {
        let mut i: usize = 0;
        while i < self.entries.len()
            invariant
                i <= self.entries.len(),
                forall|j: int| 0 <= j < i ==> self@[j].bidder != bidder@,
            decreases self.entries.len() - i,
        {
            if self.entries[i].bidder == *bidder {
                return Some(i);
            }
            i = i + 1;
        }
        None
    }

    /// The active bid of `bidder`, if there is one.
    pub fn get(&self, bidder: &String) -> (r: Option<Bid>)
        requires
            self.wf(),
        ensures
            r == bid_of(self@, bidder@),
    {
        match self.find(bidder) {
            Some(i) => {
                proof {
                    lemma_index_of(self@, bidder@, i as int);
                }
                Some(self.entries[i].bid)
            },
            None => None,
        }
    }

    /// Sets `bidder`'s offer to `bid` and hands back the offer that it replaces.
    pub fn upsert(&mut self, bidder: String, bid: Bid) -> (r: Option<Bid>)
        requires
            old(self).wf(),
        ensures
            final(self).wf(),
            final(self)@ == with_bid(old(self)@, bidder@, bid),
            r == bid_of(old(self)@, bidder@),
    {
        let ghost before = self@;
        match self.find(&bidder) {
            Some(i) => {
                proof {
                    lemma_index_of(before, bidder@, i as int);
                }
                let previous = self.entries[i].bid;
                self.entries.set(i, OwnedBid { bidder, bid });
                assert(self@ =~= with_bid(before, bidder@, bid));
                Some(previous)
            },
            None => {
                self.entries.push(OwnedBid { bidder, bid });
                assert(self@ =~= with_bid(before, bidder@, bid));
                None
            },
        }
    }

    /// Deletes `bidder`'s entry and hands back the offer that it held.
    pub fn remove(&mut self, bidder: &String) -> (r: Option<Bid>)
        requires
            old(self).wf(),
        ensures
            final(self).wf(),
            final(self)@ == without_bidder(old(self)@, bidder@),
            r == bid_of(old(self)@, bidder@),
    {
        let ghost before = self@;
        match self.find(bidder) {
            Some(i) => {
                proof {
                    lemma_index_of(before, bidder@, i as int);
                }
                let entry = self.entries.remove(i);
                assert(self@ =~= without_bidder(before, bidder@));
                Some(entry.bid)
            },
            None => None,
        }
    }

    /// Deletes every entry.
    pub fn clear(&mut self)
        ensures
            final(self)@ == Seq::<BidRecord>::empty(),
            final(self).wf(),
    {
        self.entries = Vec::new();
    }

    /// The entry at place `i`, in the order in which the bidders first appeared.
    pub fn entry(&self, i: usize) -> (r: &OwnedBid)
        requires
            i < self@.len(),
        ensures
            r@ == self@[i as int],
    {
        &self.entries[i]
    }

    /// Deletes the entry at place `i` and hands it back.
    pub fn take(&mut self, i: usize) -> (r: OwnedBid)
        requires
            old(self).wf(),
            i < old(self)@.len(),
        ensures
            final(self).wf(),
            final(self)@ == old(self)@.remove(i as int),
            r@ == old(self)@[i as int],
    {
        let ghost before = self@;
        let entry = self.entries.remove(i);
        assert(self@ =~= before.remove(i as int));
        entry
    }

    /// The identities with an active bid, in the order in which they first appeared.
    pub fn bidders(&self) -> (r: Vec<String>)
        ensures
            r@.len() == self@.len(),
            forall|i: int| 0 <= i < self@.len() ==> (#[trigger] r@[i])@ == self@[i].bidder,
    {
        let mut out: Vec<String> = Vec::new();
        let mut i: usize = 0;
        while i < self.entries.len()
            invariant
                i <= self.entries.len(),
                out@.len() == i,
                forall|j: int| 0 <= j < i ==> (#[trigger] out@[j])@ == self@[j].bidder,
            decreases self.entries.len() - i,
        {
            out.push(self.entries[i].bidder.clone());
            i = i + 1;
        }
        out
    }
}

/// In a store without duplicates, an entry of `bidder` is the one that `index_of` names.
pub proof fn lemma_index_of(s: Seq<BidRecord>, bidder: Seq<char>, i: int)
    requires
        distinct_bidders(s),
        0 <= i < s.len(),
        s[i].bidder == bidder,
    ensures
        has_bidder(s, bidder),
        index_of(s, bidder) == i,
{
    let k = index_of(s, bidder);
    assert(0 <= k < s.len() && s[k].bidder == bidder);
    if k < i {
        assert(s[k].bidder != s[i].bidder);
    } else if i < k {
        assert(s[i].bidder != s[k].bidder);
    }
}

/// Adding an entry adds its amount to the total.
pub proof fn lemma_total_push(s: Seq<BidRecord>, r: BidRecord)
    ensures
        bid_total(s.push(r)) == bid_total(s) + r.bid.amount,
{
    assert(s.push(r).drop_last() =~= s);
}

/// Deleting an entry takes its amount off the total.
pub proof fn lemma_total_remove(s: Seq<BidRecord>, i: int)
    requires
        0 <= i < s.len(),
    ensures
        bid_total(s.remove(i)) == bid_total(s) - s[i].bid.amount,
    decreases s.len(),
{
    if i == s.len() - 1 {
        assert(s.remove(i) =~= s.drop_last());
    } else {
        lemma_total_remove(s.drop_last(), i);
        assert(s.remove(i).drop_last() =~= s.drop_last().remove(i));
        assert(s.remove(i).last() == s.last());
    }
}

/// Overwriting an entry exchanges its amount in the total.
pub proof fn lemma_total_update(s: Seq<BidRecord>, i: int, r: BidRecord)
    requires
        0 <= i < s.len(),
    ensures
        bid_total(s.update(i, r)) == bid_total(s) - s[i].bid.amount + r.bid.amount,
    decreases s.len(),
{
    if i == s.len() - 1 {
        assert(s.update(i, r).drop_last() =~= s.drop_last());
    } else {
        lemma_total_update(s.drop_last(), i, r);
        assert(s.update(i, r).drop_last() =~= s.drop_last().update(i, r));
        assert(s.update(i, r).last() == s.last());
    }
}

/// Setting a bidder's offer keeps the store free of duplicates, and free of empty offers
/// where the new offer is not empty.
pub proof fn lemma_with_bid_distinct(s: Seq<BidRecord>, bidder: Seq<char>, bid: Bid)
    requires
        distinct_bidders(s),
    ensures
        distinct_bidders(with_bid(s, bidder, bid)),
        bid_of(with_bid(s, bidder, bid), bidder) == Some(bid),
        positive_bids(s) && bid.amount > 0 ==> positive_bids(with_bid(s, bidder, bid)),
{
    if positive_bids(s) && bid.amount > 0 {
        let u = with_bid(s, bidder, bid);
        assert forall|i: int| 0 <= i < u.len() implies (#[trigger] u[i]).bid.amount > 0 by {
            if i < s.len() && !(has_bidder(s, bidder) && i == index_of(s, bidder)) {
                assert(u[i] == s[i]);
            }
        }
    }
    let t = with_bid(s, bidder, bid);
    if has_bidder(s, bidder) {
        let k = index_of(s, bidder);
        assert(t[k].bidder == bidder);
        assert forall|i: int, j: int| 0 <= i < j < t.len() implies t[i].bidder != t[j].bidder by {
            assert(t[i].bidder == s[i].bidder);
            assert(t[j].bidder == s[j].bidder);
        }
        lemma_index_of(t, bidder, k);
    } else {
        let k = s.len() as int;
        assert(t[k].bidder == bidder);
        assert forall|i: int, j: int| 0 <= i < j < t.len() implies t[i].bidder != t[j].bidder by {
            if j == k {
                assert(s[i].bidder != bidder);
            }
        }
        lemma_index_of(t, bidder, k);
    }
}

} // verus!

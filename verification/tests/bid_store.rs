use escrow_auction::bids::{Bid, BidStore, OwnedBid};
use escrow_auction::settle::{amount_improves, bid_outbids, select_winner, AuctionDirection};

fn owned(bidder: &str, amount: u128, timestamp: u64) -> OwnedBid {
    OwnedBid { bidder: bidder.to_string(), bid: Bid { amount, timestamp } }
}

#[test]
fn upsert_then_get_returns_the_bid() {
    let mut store = BidStore::new();
    assert!(store.is_empty());
    let previous = store.upsert("bob".to_string(), Bid { amount: 100, timestamp: 7 });
    assert_eq!(previous, None);
    assert_eq!(store.get(&"bob".to_string()), Some(Bid { amount: 100, timestamp: 7 }));
    assert_eq!(store.get(&"eve".to_string()), None);
    assert_eq!(store.len(), 1);
    assert!(!store.is_empty());
}

#[test]
fn upsert_overwrites_in_place() {
    let mut store = BidStore::new();
    store.upsert("a".to_string(), Bid { amount: 1, timestamp: 1 });
    store.upsert("b".to_string(), Bid { amount: 2, timestamp: 2 });
    let previous = store.upsert("a".to_string(), Bid { amount: 3, timestamp: 3 });
    assert_eq!(previous, Some(Bid { amount: 1, timestamp: 1 }));
    assert_eq!(store.bidders(), vec!["a".to_string(), "b".to_string()]);
    assert_eq!(store.entry(0), &owned("a", 3, 3));
    assert_eq!(store.into_entries(), vec![owned("a", 3, 3), owned("b", 2, 2)]);
}

#[test]
fn remove_take_and_clear_delete_entries() {
    let mut store =
        BidStore::from_entries(vec![owned("a", 1, 1), owned("b", 2, 2), owned("c", 3, 3)]).unwrap();
    assert_eq!(store.remove(&"b".to_string()), Some(Bid { amount: 2, timestamp: 2 }));
    assert_eq!(store.remove(&"b".to_string()), None);
    assert_eq!(store.bidders(), vec!["a".to_string(), "c".to_string()]);
    assert_eq!(store.take(0), owned("a", 1, 1));
    assert_eq!(store.len(), 1);
    store.clear();
    assert!(store.is_empty());
}

#[test]
fn all_positive_finds_an_empty_offer() {
    assert!(BidStore::from_entries(vec![owned("a", 1, 1), owned("b", 2, 2)]).unwrap().all_positive());
    assert!(!BidStore::from_entries(vec![owned("a", 1, 1), owned("b", 0, 2)]).unwrap().all_positive());
    assert!(BidStore::new().all_positive());
}

#[test]
fn from_entries_refuses_a_bidder_twice() {
    assert!(BidStore::from_entries(vec![owned("a", 1, 1), owned("b", 2, 2), owned("a", 3, 3)]).is_none());
    assert!(BidStore::from_entries(vec![]).unwrap().is_empty());
}

#[test]
fn bids_compare_by_amount_then_by_time() {
    let up = AuctionDirection::Ascending;
    let down = AuctionDirection::Descending;
    assert!(amount_improves(up, 2, 1));
    assert!(!amount_improves(up, 1, 1));
    assert!(amount_improves(down, 1, 2));
    assert!(!amount_improves(down, 2, 2));
    let early = Bid { amount: 5, timestamp: 1 };
    let late = Bid { amount: 5, timestamp: 2 };
    let more = Bid { amount: 6, timestamp: 9 };
    assert!(bid_outbids(up, early, late));
    assert!(!bid_outbids(up, late, early));
    assert!(!bid_outbids(up, early, early));
    assert!(bid_outbids(down, early, late));
    assert!(bid_outbids(up, more, early));
    assert!(bid_outbids(down, early, more));
}

#[test]
fn select_winner_finds_the_best_bid() {
    let store = BidStore::from_entries(vec![
        owned("a", 100, 5),
        owned("b", 250, 9),
        owned("c", 250, 4),
        owned("d", 100, 2),
        owned("e", 250, 4),
    ])
    .unwrap();
    assert_eq!(select_winner(&store, AuctionDirection::Ascending), 2);
    assert_eq!(select_winner(&store, AuctionDirection::Descending), 3);
}

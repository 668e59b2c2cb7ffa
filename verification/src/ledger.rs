//! Outbound transfer instructions, and what they add up to.

use vstd::prelude::*;

verus! {

/// The two token contracts that an auction deals with.
#[derive(Clone, Copy, Debug, PartialEq, Eq, Structural)]
pub enum Endpoint {
    /// The token that the seller consigns.
    SaleToken,
    /// The token that the bidders offer.
    BidToken,
}

/// An instruction to move `amount` tokens of one token contract out of escrow to `recipient`.
#[derive(Clone, Debug, PartialEq, Eq)]
pub struct Transfer {
    pub endpoint: Endpoint,
    pub recipient: String,
    pub amount: u128,
}

/// What a [`Transfer`] stands for.
pub struct TransferView {
    pub endpoint: Endpoint,
    pub recipient: Seq<char>,
    pub amount: u128,
}

impl View for Transfer {
    type V = TransferView;

    open spec fn view(&self) -> TransferView {
        TransferView { endpoint: self.endpoint, recipient: self.recipient@, amount: self.amount }
    }
}

/// The instructions that a vector of transfers stands for, in order.
pub open spec fn transfer_views(v: Seq<Transfer>) -> Seq<TransferView> {
    v.map_values(|t: Transfer| t@)
}

/// How much the instructions `ts` move out of escrow at `endpoint`.
pub open spec fn sent(ts: Seq<TransferView>, endpoint: Endpoint) -> int
    decreases ts.len(),
{
    if ts.len() == 0 {
        0
    } else {
        sent(ts.drop_last(), endpoint) + if ts.last().endpoint == endpoint {
            ts.last().amount as int
        } else {
            0
        }
    }
}

/// One more instruction adds its amount at its own endpoint and nothing at the other.
pub proof fn lemma_sent_push(ts: Seq<TransferView>, t: TransferView, endpoint: Endpoint)
    ensures
        sent(ts.push(t), endpoint) == sent(ts, endpoint) + if t.endpoint == endpoint {
            t.amount as int
        } else {
            0
        },
{
    assert(ts.push(t).drop_last() =~= ts);
}

/// What two runs of instructions move is the sum of what each moves.
pub proof fn lemma_sent_concat(a: Seq<TransferView>, b: Seq<TransferView>, endpoint: Endpoint)
    ensures
        sent(a + b, endpoint) == sent(a, endpoint) + sent(b, endpoint),
    decreases b.len(),
{
    if b.len() == 0 {
        assert(a + b =~= a);
    } else {
        lemma_sent_concat(a, b.drop_last(), endpoint);
        assert((a + b).drop_last() =~= a + b.drop_last());
        assert((a + b).last() == b.last());
    }
}

} // verus!

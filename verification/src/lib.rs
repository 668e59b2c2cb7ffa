//! A sealed escrow auction: a seller consigns a fixed lot of sale tokens, bidders deposit
//! bid tokens as standing offers, and closing the auction swaps the winning offer against the
//! lot while every other deposit is handed back.

pub mod auction;
pub mod bids;
pub mod clock;
pub mod contract;
pub mod laws;
pub mod ledger;
pub mod msg;
pub mod oracle;
pub mod pricing;
pub mod settle;
pub mod snip20;

use escrow_auction::auction::{Auction, AuctionError, AuctionStatus, BidAcceptancePolicy, ZeroBidPolicy};
use escrow_auction::bids::Bid;
use escrow_auction::contract::{
    handle, init, oracle_query, query, try_calculate_proposal, Env, HandleError, HandleMsg, InitError,
    InitMsg, InitResponse, OracleQueryMsg, OracleQueryResponse, PricingInput, QueryAnswer, QueryMsg,
    TokenInfo,
};
use escrow_auction::ledger::{Endpoint, Transfer};
use escrow_auction::msg::{HandleAnswer, Outcome, ResponseStatus};
use escrow_auction::pricing::{convert_to_tokens, Credit, History, Proposal};
use escrow_auction::settle::AuctionDirection;
use escrow_auction::snip20::ContractInfo;

fn mock_env(sender: &str) -> Env {
    Env {
        sender: sender.to_string(),
        block_time: 1_571_797_419,
        contract_address: "cosmos2contract".to_string(),
        contract_code_hash: "auctionhash".to_string(),
    }
}

fn credits() -> Vec<Credit> {
    vec![
        Credit { sum: 100000, interest_rate: 5, time: 6, is_closed: true },
        Credit { sum: 200000, interest_rate: 10, time: 9, is_closed: false },
        Credit { sum: 200000, interest_rate: 7, time: 6, is_closed: true },
        Credit { sum: 150000, interest_rate: 10, time: 12, is_closed: true },
    ]
}

fn sell_contract() -> ContractInfo {
    ContractInfo { code_hash: "sellhash".to_string(), address: "selladdr".to_string() }
}

fn bid_contract() -> ContractInfo {
    ContractInfo { code_hash: "bidhash".to_string(), address: "bidaddr".to_string() }
}

fn init_msg() -> InitMsg {
    InitMsg {
        sell_contract: sell_contract(),
        bid_contract: bid_contract(),
        pricing: PricingInput::CreditHistory { credit_request: credits() },
        direction: AuctionDirection::Ascending,
        zero_bids: ZeroBidPolicy::HardError,
        description: None,
    }
}

fn init_helper() -> Result<(Auction, InitResponse), InitError> {
    init(mock_env("auction"), init_msg())
}

fn receive(from: &str, amount: u128) -> HandleMsg {
    HandleMsg::Receive { sender: "blah".to_string(), from: from.to_string(), amount, msg: None }
}

fn message_of(outcome: &Outcome) -> String {
    match &outcome.answer {
        HandleAnswer::Bid { message, .. } => message.clone(),
        HandleAnswer::Consign { message, .. } => message.clone(),
        HandleAnswer::CloseAuction { message, .. } => message.clone(),
        HandleAnswer::Status { message, .. } => message.clone(),
    }
}

fn token_info(name: &str) -> TokenInfo {
    TokenInfo { name: name.to_string(), symbol: "TKN".to_string(), decimals: 6, total_supply: None }
}

#[test]
fn test_init_sanity() {
    let init_result = init_helper();
    assert!(init_result.is_ok(), "Init failed: {}", init_result.err().unwrap().message());
    let (auction, response) = init_result.unwrap();
    let credit_request = convert_to_tokens(&credits());

    assert_eq!("auction", auction.seller().as_str());
    assert_eq!(&sell_contract(), auction.sell_contract());
    assert_eq!(&bid_contract(), auction.bid_contract());
    assert_eq!(credit_request.unwrap(), auction.required_amount());
    assert_eq!(0, auction.currently_consigned());
    assert_eq!(Vec::<String>::new(), auction.bids().bidders());
    assert_eq!(false, auction.is_completed());
    assert_eq!(false, auction.tokens_consigned());
    assert_eq!(&None, auction.description());
    assert_eq!(0, auction.winning_bid());
    assert_eq!("cosmos2contract", auction.auction_addr().as_str());
    assert_eq!(2, response.messages.len());
    assert_eq!("selladdr", response.messages[0].contract_addr);
    assert_eq!("sellhash", response.messages[0].callback_code_hash);
    assert_eq!("bidaddr", response.messages[1].contract_addr);
    assert_eq!("bidhash", response.messages[1].callback_code_hash);
}

#[test]
fn test_consign() {
    let init_result = init_helper();
    assert!(init_result.is_ok(), "Init failed: {}", init_result.err().unwrap().message());
    let (mut auction, _) = init_result.unwrap();
    assert_eq!(304, auction.required_amount());

    // try consign too little
    let outcome = handle(&mut auction, mock_env("selladdr"), receive("auction", 2)).unwrap();
    assert!(message_of(&outcome).contains("not consigned the full amount"));
    match &outcome.answer {
        HandleAnswer::Consign { status, amount_needed, amount_consigned, amount_returned, .. } => {
            assert_eq!(*status, ResponseStatus::Failure);
            assert_eq!(*amount_needed, Some(302));
            assert_eq!(*amount_consigned, Some(2));
            assert_eq!(*amount_returned, None);
        }
        other => panic!("unexpected answer: {:?}", other),
    }
    assert!(outcome.transfers.is_empty());
    assert_eq!(false, auction.tokens_consigned());

    // try consign too much
    let outcome = handle(&mut auction, mock_env("selladdr"), receive("auction", 310)).unwrap();
    assert!(message_of(&outcome).contains("Excess tokens have been returned"));
    match &outcome.answer {
        HandleAnswer::Consign { status, amount_needed, amount_consigned, amount_returned, .. } => {
            assert_eq!(*status, ResponseStatus::Success);
            assert_eq!(*amount_returned, Some(8));
            assert_eq!(*amount_consigned, Some(304));
            assert_eq!(*amount_needed, None);
        }
        other => panic!("unexpected answer: {:?}", other),
    }
    assert_eq!(
        outcome.transfers,
        vec![Transfer { endpoint: Endpoint::SaleToken, recipient: "auction".to_string(), amount: 8 }]
    );
    assert!(auction.tokens_consigned());
    assert_eq!(304, auction.currently_consigned());
}

fn bid_fields(outcome: &Outcome) -> (ResponseStatus, Option<u128>, Option<u128>, Option<u128>) {
    match &outcome.answer {
        HandleAnswer::Bid { status, previous_bid, amount_bid, amount_returned, .. } => {
            (*status, *previous_bid, *amount_bid, *amount_returned)
        }
        other => panic!("unexpected answer: {:?}", other),
    }
}

#[test]
fn test_bid() {
    let init_result = init_helper();
    assert!(init_result.is_ok(), "Init failed: {}", init_result.err().unwrap().message());
    let (mut auction, _) = init_result.unwrap();
    let bob = "bob".to_string();

    // try bid bigger than the amount for sale
    let outcome = handle(&mut auction, mock_env("bidaddr"), receive("bob", 320)).unwrap();
    assert!(message_of(&outcome).contains("Bid was bigger than stated. Bid tokens have been returned"));
    assert_eq!(bid_fields(&outcome), (ResponseStatus::Failure, None, Some(304), Some(320)));
    assert_eq!(
        outcome.transfers,
        vec![Transfer { endpoint: Endpoint::BidToken, recipient: bob.clone(), amount: 320 }]
    );
    assert_eq!(auction.bids().len(), 0);

    // sanity check
    let outcome = handle(&mut auction, mock_env("bidaddr"), receive("bob", 100)).unwrap();
    assert!(message_of(&outcome).contains("Bid accepted"));
    assert_eq!(bid_fields(&outcome), (ResponseStatus::Success, None, Some(100), None));
    assert!(outcome.transfers.is_empty());
    assert_eq!(auction.bids().len(), 1);
    let bid = auction.bids().get(&bob).unwrap();
    assert_eq!(bid.amount, 100);
    assert_eq!(bid.timestamp, 1_571_797_419);

    // bid equal to previous bid
    let outcome = handle(&mut auction, mock_env("bidaddr"), receive("bob", 100)).unwrap();
    assert!(message_of(&outcome)
        .contains("New bid less than or equal to previous bid. Newly bid tokens have been returned"));
    assert_eq!(bid_fields(&outcome), (ResponseStatus::Failure, Some(100), Some(100), Some(100)));
    assert_eq!(
        outcome.transfers,
        vec![Transfer { endpoint: Endpoint::BidToken, recipient: bob.clone(), amount: 100 }]
    );
    assert_eq!(auction.bids().len(), 1);
    assert_eq!(auction.bids().get(&bob).unwrap().amount, 100);

    // bid less than previous bid: the new deposit goes back whole
    let outcome = handle(&mut auction, mock_env("bidaddr"), receive("bob", 25)).unwrap();
    assert!(message_of(&outcome)
        .contains("New bid less than or equal to previous bid. Newly bid tokens have been returned"));
    assert_eq!(bid_fields(&outcome), (ResponseStatus::Failure, Some(100), Some(25), Some(25)));
    assert_eq!(
        outcome.transfers,
        vec![Transfer { endpoint: Endpoint::BidToken, recipient: bob.clone(), amount: 25 }]
    );
    assert_eq!(auction.bids().len(), 1);
    assert_eq!(auction.bids().get(&bob).unwrap().amount, 100);

    // bid more than previous bid: the standing offer goes back
    let outcome = handle(&mut auction, mock_env("bidaddr"), receive("bob", 250)).unwrap();
    assert!(message_of(&outcome).contains("Previously bid tokens have been returned"));
    assert_eq!(bid_fields(&outcome), (ResponseStatus::Success, None, Some(250), Some(100)));
    assert_eq!(
        outcome.transfers,
        vec![Transfer { endpoint: Endpoint::BidToken, recipient: bob.clone(), amount: 100 }]
    );
    assert_eq!(auction.bids().len(), 1);
    assert_eq!(auction.bids().get(&bob), Some(Bid { amount: 250, timestamp: 1_571_797_419 }));
}

#[test]
fn init_rejects_an_empty_credit_list() {
    let mut msg = init_msg();
    msg.pricing = PricingInput::CreditHistory { credit_request: vec![] };
    assert_eq!(init(mock_env("auction"), msg).err(), Some(InitError::NoCredits));
    assert_eq!(InitError::NoCredits.message(), "There must be a credit history");
}

#[test]
fn init_rejects_credits_that_are_good_for_nothing() {
    let mut msg = init_msg();
    msg.pricing = PricingInput::CreditHistory {
        credit_request: vec![Credit { sum: 200000, interest_rate: 10, time: 9, is_closed: false }],
    };
    assert_eq!(init(mock_env("auction"), msg).err(), Some(InitError::BadCredits));
    let mut msg = init_msg();
    msg.pricing = PricingInput::CreditHistory {
        credit_request: vec![Credit { sum: 1, interest_rate: 1, time: 1, is_closed: true }],
    };
    assert_eq!(init(mock_env("auction"), msg).err(), Some(InitError::BadCredits));
}

#[test]
fn init_rejects_one_contract_for_both_tokens() {
    let mut msg = init_msg();
    msg.bid_contract = ContractInfo { code_hash: "otherhash".to_string(), address: "selladdr".to_string() };
    assert_eq!(init(mock_env("auction"), msg).err(), Some(InitError::SameContract));
    assert_eq!(
        InitError::SameContract.message(),
        "Sell contract and bid contract must be different"
    );
}

fn scored(expected: u128, payment: u128, history: Option<History>) -> InitMsg {
    InitMsg {
        sell_contract: sell_contract(),
        bid_contract: bid_contract(),
        pricing: PricingInput::Score {
            expected,
            payment,
            oracle: OracleQueryResponse { history, message: "History for user found".to_string() },
        },
        direction: AuctionDirection::Descending,
        zero_bids: ZeroBidPolicy::SoftRefusal,
        description: Some("a credit".to_string()),
    }
}

fn long_history() -> History {
    History {
        debts: Some(100000),
        credits: vec![
            Credit { sum: 1000000, interest_rate: 6, time: 12, is_closed: true },
            Credit { sum: 100000, interest_rate: 5, time: 6, is_closed: false },
            Credit { sum: 500000, interest_rate: 10, time: 9, is_closed: false },
            Credit { sum: 200000, interest_rate: 7, time: 6, is_closed: true },
            Credit { sum: 150000, interest_rate: 10, time: 12, is_closed: true },
        ],
    }
}

#[test]
fn init_from_a_score_sets_the_lot_and_the_estimate() {
    // balance by weight: 72000000 - 3000000 - 45000000 + 8400000 + 18000000 = 50400000
    // points: 25200000 - (33333 + 1) + 5 * 1000 / 5 = 25167666
    // score: (25167666 / 1000 + 666) / 100 = 258; estimate: (1500 / 1000) * 1000 + 500 = 1500
    let (auction, _) = init(mock_env("auction"), scored(1000, 1500, Some(long_history()))).unwrap();
    assert_eq!(auction.required_amount(), 258);
    assert_eq!(auction.policy(), BidAcceptancePolicy::UpToEstimate { average_bid: 1500 });
    assert_eq!(auction.direction(), AuctionDirection::Descending);
    assert_eq!(auction.zero_bids(), ZeroBidPolicy::SoftRefusal);
    assert_eq!(auction.description(), &Some("a credit".to_string()));
}

#[test]
fn the_history_store_is_asked_about_the_sender() {
    assert_eq!(
        oracle_query(&mock_env("auction")),
        OracleQueryMsg::GetHistory { user: "auction".to_string() }
    );
}

#[test]
fn init_from_a_score_names_each_failure() {
    let mut same = scored(1000, 1500, Some(long_history()));
    same.bid_contract = sell_contract();
    assert_eq!(init(mock_env("auction"), same).err(), Some(InitError::SameContract));
    assert_eq!(
        init(mock_env("auction"), scored(1500, 1500, Some(long_history()))).err(),
        Some(InitError::PaymentTooLow)
    );
    assert_eq!(init(mock_env("auction"), scored(1000, 1500, None)).err(), Some(InitError::NoHistory));
    let poor = History { debts: Some(1_000_000_000), credits: vec![] };
    assert_eq!(init(mock_env("auction"), scored(1000, 1500, Some(poor))).err(), Some(InitError::BadScore));
    assert_eq!(
        init(mock_env("auction"), scored(0, 1500, Some(long_history()))).err(),
        Some(InitError::NoEstimate)
    );
    assert_eq!(InitError::PaymentTooLow.message(), "You can't expect to pay less than sum of credit");
    assert_eq!(InitError::NoHistory.message(), "You have no credit history to calculate score");
    assert_eq!(InitError::BadScore.message(), "You have too bad score");
    assert_eq!(InitError::BadCredits.message(), "You have too bad credit history to get a new credit");
}

#[test]
fn a_deposit_from_an_unknown_contract_is_an_error() {
    let (mut auction, _) = init_helper().unwrap();
    let before = auction.currently_consigned();
    let result = handle(&mut auction, mock_env("someone"), receive("auction", 5));
    let error = result.err().unwrap();
    assert_eq!(error, HandleError::NotAToken { sender: "someone".to_string() });
    assert_eq!(error.message(), "Address: someone is not a token in this auction");
    assert_eq!(auction.currently_consigned(), before);
    assert_eq!(auction.bids().len(), 0);
}

#[test]
fn finalize_through_handle_needs_the_seller() {
    let (mut auction, _) = init_helper().unwrap();
    let result = handle(&mut auction, mock_env("bob"), HandleMsg::Finalize { only_if_bids: false });
    assert_eq!(result.err(), Some(HandleError::Auction(AuctionError::NotSeller)));
    assert_eq!(
        HandleError::Auction(AuctionError::NotSeller).message(),
        "Only auction creator can finalize the sale"
    );
    assert!(!auction.is_completed());
    let result = handle(&mut auction, mock_env("bob"), HandleMsg::ReturnAll {});
    assert_eq!(result.err(), Some(HandleError::Auction(AuctionError::ReturnAllBeforeEnd)));
    let result = handle(&mut auction, mock_env("auction"), HandleMsg::Finalize { only_if_bids: true });
    assert_eq!(result.err(), Some(HandleError::Auction(AuctionError::NoActiveBids)));
    assert!(!auction.is_completed());
    let outcome =
        handle(&mut auction, mock_env("auction"), HandleMsg::Finalize { only_if_bids: false }).unwrap();
    assert_eq!(message_of(&outcome), "Auction has been closed");
    assert!(auction.is_completed());
    let outcome = handle(&mut auction, mock_env("bob"), HandleMsg::ReturnAll {}).unwrap();
    assert_eq!(message_of(&outcome), "Outstanding funds have been returned");
    assert!(outcome.transfers.is_empty());
}

#[test]
fn view_bid_through_handle_spells_out_the_time() {
    let (mut auction, _) = init_helper().unwrap();
    let outcome = handle(&mut auction, mock_env("bob"), HandleMsg::ViewBid {}).unwrap();
    assert_eq!(
        outcome.answer,
        HandleAnswer::Bid {
            status: ResponseStatus::Failure,
            message: "No active bid for address: bob".to_string(),
            previous_bid: None,
            amount_bid: None,
            amount_returned: None,
        }
    );
    handle(&mut auction, mock_env("bidaddr"), receive("bob", 100)).unwrap();
    let outcome = handle(&mut auction, mock_env("bob"), HandleMsg::ViewBid {}).unwrap();
    assert_eq!(
        outcome.answer,
        HandleAnswer::Bid {
            status: ResponseStatus::Success,
            message: "Bid placed 2019-10-23 02:23:39 UTC".to_string(),
            previous_bid: None,
            amount_bid: Some(100),
            amount_returned: None,
        }
    );
    assert!(outcome.transfers.is_empty());
}

#[test]
fn view_bid_fails_for_a_time_beyond_the_calendar() {
    let (mut auction, _) = init_helper().unwrap();
    let mut env = mock_env("bidaddr");
    env.block_time = u64::MAX;
    handle(&mut auction, env, receive("bob", 100)).unwrap();
    let result = handle(&mut auction, mock_env("bob"), HandleMsg::ViewBid {});
    assert_eq!(result.err(), Some(HandleError::TimeOutOfRange));
    assert_eq!(auction.bids().len(), 1);
}

#[test]
fn auction_info_follows_the_auction() {
    let (mut auction, _) = init_helper().unwrap();
    let ask = |auction: &Auction| {
        query(auction, QueryMsg::AuctionInfo {}, token_info("sale"), token_info("bid")).unwrap()
    };
    match ask(&auction) {
        QueryAnswer::AuctionInfo {
            sell_token,
            bid_token,
            required_amount,
            average_bid,
            description,
            auction_address,
            status,
            winning_bid,
        } => {
            assert_eq!(sell_token.contract_address, "selladdr");
            assert_eq!(sell_token.token_info, token_info("sale"));
            assert_eq!(bid_token.contract_address, "bidaddr");
            assert_eq!(bid_token.token_info, token_info("bid"));
            assert_eq!(required_amount, 304);
            assert_eq!(average_bid, None);
            assert_eq!(description, None);
            assert_eq!(auction_address, "cosmos2contract");
            assert_eq!(status, "open, not yet consigned");
            assert_eq!(winning_bid, None);
        }
        other => panic!("unexpected answer: {:?}", other),
    }
    assert_eq!(auction.status(), AuctionStatus::OpenNotConsigned);
    handle(&mut auction, mock_env("selladdr"), receive("auction", 304)).unwrap();
    match ask(&auction) {
        QueryAnswer::AuctionInfo { status, .. } => assert_eq!(status, "open, consigned"),
        other => panic!("unexpected answer: {:?}", other),
    }
    handle(&mut auction, mock_env("bidaddr"), receive("bob", 100)).unwrap();
    handle(&mut auction, mock_env("auction"), HandleMsg::Finalize { only_if_bids: false }).unwrap();
    match ask(&auction) {
        QueryAnswer::AuctionInfo { status, winning_bid, .. } => {
            assert_eq!(status, "closed");
            assert_eq!(winning_bid, Some(100));
        }
        other => panic!("unexpected answer: {:?}", other),
    }
}

#[test]
fn a_proposal_is_worth_a_bid_only_below_the_lot() {
    let (auction, _) = init_helper().unwrap();
    // 100000 * 5 / (6 * 720) = 115
    let good = Proposal { sum: 100000, interest_rate: 5, time: 6 };
    assert_eq!(
        query(&auction, QueryMsg::CalculateProposal { proposal: good }, token_info("a"), token_info("b")),
        Some(QueryAnswer::CalculateProposal {
            credit_proposal: Some(115),
            message: "Good proposal, mate!".to_string()
        })
    );
    // 200000 * 10 / (9 * 720) = 308
    let high = Proposal { sum: 200000, interest_rate: 10, time: 9 };
    assert_eq!(
        try_calculate_proposal(&auction, high),
        Some(QueryAnswer::CalculateProposal {
            credit_proposal: None,
            message: "Try another proposition".to_string()
        })
    );
    let endless = Proposal { sum: 1, interest_rate: 1, time: 0 };
    assert_eq!(try_calculate_proposal(&auction, endless), None);
    let huge = Proposal { sum: u128::MAX, interest_rate: 2, time: 1 };
    assert_eq!(try_calculate_proposal(&auction, huge), None);
}

#[test]
fn only_deposit_notices_are_answered_in_the_log() {
    assert!(receive("bob", 1).answered_in_log());
    assert!(!HandleMsg::ViewBid {}.answered_in_log());
    assert!(!HandleMsg::Finalize { only_if_bids: true }.answered_in_log());
    assert!(!HandleMsg::ReturnAll {}.answered_in_log());
}

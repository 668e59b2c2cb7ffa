use escrow_auction::clock::{block_time_text, LAST_FOUR_DIGIT_SECOND};
use escrow_auction::ledger::{Endpoint, Transfer};
use escrow_auction::snip20::{transfer_messages, ContractInfo, BLOCK_SIZE};

fn sale_token() -> ContractInfo {
    ContractInfo { code_hash: "sellhash".to_string(), address: "selladdr".to_string() }
}

fn bid_token() -> ContractInfo {
    ContractInfo { code_hash: "bidhash".to_string(), address: "bidaddr".to_string() }
}

fn padded(json: &str) -> Vec<u8> {
    let mut bytes = json.as_bytes().to_vec();
    while bytes.len() % BLOCK_SIZE != 0 {
        bytes.push(b' ');
    }
    bytes
}

#[test]
fn transfer_msg_is_a_padded_transfer_to_the_token() {
    let message = sale_token().transfer_msg("bob".to_string(), 100).unwrap();
    assert_eq!(message.contract_addr, "selladdr");
    assert_eq!(message.callback_code_hash, "sellhash");
    assert_eq!(
        message.msg,
        padded(r#"{"transfer":{"recipient":"bob","amount":"100","memo":null,"padding":null}}"#)
    );
    assert_eq!(message.msg.len(), 256);
}

#[test]
fn register_receive_msg_names_the_code_hash() {
    let message = bid_token().register_receive_msg("auctionhash".to_string()).unwrap();
    assert_eq!(message.contract_addr, "bidaddr");
    assert_eq!(message.callback_code_hash, "bidhash");
    assert_eq!(
        message.msg,
        padded(r#"{"register_receive":{"code_hash":"auctionhash","padding":null}}"#)
    );
}

#[test]
fn transfer_messages_go_to_the_token_of_each_instruction() {
    let transfers = vec![
        Transfer { endpoint: Endpoint::BidToken, recipient: "seller".to_string(), amount: 250 },
        Transfer { endpoint: Endpoint::SaleToken, recipient: "b".to_string(), amount: 304 },
        Transfer { endpoint: Endpoint::BidToken, recipient: "a".to_string(), amount: 100 },
    ];
    let messages = transfer_messages(&sale_token(), &bid_token(), &transfers).unwrap();
    assert_eq!(messages.len(), 3);
    assert_eq!(messages[0], bid_token().transfer_msg("seller".to_string(), 250).unwrap());
    assert_eq!(messages[1], sale_token().transfer_msg("b".to_string(), 304).unwrap());
    assert_eq!(messages[2], bid_token().transfer_msg("a".to_string(), 100).unwrap());
    assert_eq!(messages[1].contract_addr, "selladdr");
    assert!(transfer_messages(&sale_token(), &bid_token(), &vec![]).unwrap().is_empty());
}

#[test]
fn block_time_text_spells_out_the_time() {
    assert_eq!(block_time_text(0), Some("1970-01-01 00:00:00".to_string()));
    assert_eq!(block_time_text(1_571_797_419), Some("2019-10-23 02:23:39".to_string()));
    assert_eq!(block_time_text(LAST_FOUR_DIGIT_SECOND), Some("9999-12-31 23:59:59".to_string()));
    assert_eq!(block_time_text(u64::MAX), None);
    assert_eq!(block_time_text(1u64 << 63), None);
}

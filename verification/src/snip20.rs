//! Messages to the two token contracts, built by the SNIP-20 toolkit.

use vstd::prelude::*;
use secret_cosmwasm_std::{CosmosMsg, HumanAddr, StdError, Uint128, WasmMsg};
use secret_toolkit::snip20;
use crate::ledger::{Endpoint, Transfer, TransferView};

verus! {

/// The size to which every message to a token contract is padded.
pub const BLOCK_SIZE: usize = 256;

/// The error type of the contract runtime, which the toolkit hands back.
#[verifier::external_type_specification]
#[verifier::external_body]
pub struct ExStdError(secret_cosmwasm_std::StdError);

/// A call of another contract: the contract's address and code hash, and the message's bytes.
#[derive(Clone, Debug, PartialEq, Eq)]
pub struct WasmExecute {
    pub contract_addr: String,
    pub callback_code_hash: String,
    pub msg: Vec<u8>,
}

/// What a [`WasmExecute`] stands for.
pub struct WasmExecuteView {
    pub contract_addr: Seq<char>,
    pub callback_code_hash: Seq<char>,
    pub msg: Seq<u8>,
}

impl View for WasmExecute {
    type V = WasmExecuteView;

    open spec fn view(&self) -> WasmExecuteView {
        WasmExecuteView {
            contract_addr: self.contract_addr@,
            callback_code_hash: self.callback_code_hash@,
            msg: self.msg@,
        }
    }
}

/// The calls that a vector of messages stands for, in order.
pub open spec fn message_views(v: Seq<WasmExecute>) -> Seq<WasmExecuteView> {
    v.map_values(|m: WasmExecute| m@)
}

/// Why a message to a token contract could not be built.
#[derive(Clone, Copy, Debug, PartialEq, Eq, Structural)]
pub enum MessageError {
    /// The message could not be serialised.
    Serialize,
}

/// The bytes of the SNIP-20 `transfer` message that moves `amount` tokens to `recipient`,
/// padded to `block_size`; `None` where the toolkit cannot serialise the message.
pub uninterp spec fn transfer_payload(recipient: Seq<char>, amount: u128, block_size: usize) -> Option<Seq<u8>>;

/// The bytes of the SNIP-20 `register_receive` message that names the code hash `code_hash`
/// as the receiver of deposit notices, padded to `block_size`; `None` where the toolkit
/// cannot serialise the message.
pub uninterp spec fn register_receive_payload(code_hash: Seq<char>, block_size: usize) -> Option<Seq<u8>>;

/// `secret_toolkit::snip20::transfer_msg`, without memo and without explicit padding. The
/// contract claims that the call succeeds exactly where the message can be serialised, that
/// the message's bytes depend on the recipient, the amount and the block size alone, and
/// that the message is addressed to the contract given by `address` and `code_hash`. The
/// toolkit always builds a call of a contract; the body reports anything else as an error.
#[verifier::external_body]
fn toolkit_transfer_msg(
    recipient: String,
    amount: u128,
    block_size: usize,
    code_hash: String,
    address: String,
) -> (r: Result<WasmExecute, StdError>)
    ensures
        r is Ok <==> transfer_payload(recipient@, amount, block_size) is Some,
        r matches Ok(m) ==> m@ == (WasmExecuteView {
            contract_addr: address@,
            callback_code_hash: code_hash@,
            msg: transfer_payload(recipient@, amount, block_size).unwrap(),
        }),
{
    let recipient = HumanAddr(recipient);
    let amount = Uint128(amount);
    match snip20::transfer_msg(recipient, amount, None, None, block_size, code_hash, HumanAddr(address))? {
        CosmosMsg::Wasm(WasmMsg::Execute { msg, contract_addr, callback_code_hash, .. }) => {
            Ok(WasmExecute { contract_addr: contract_addr.0, callback_code_hash, msg: msg.0 })
        },
        _ => Err(StdError::generic_err("not a contract call")),
    }
}

/// `secret_toolkit::snip20::register_receive_msg`, without explicit padding. The contract
/// claims that the call succeeds exactly where the message can be serialised, that the
/// message's bytes depend on the code hash to register and the block size alone, and that
/// the message is addressed to the contract given by `address` and `code_hash`. The toolkit
/// always builds a call of a contract; the body reports anything else as an error.
#[verifier::external_body]
fn toolkit_register_receive_msg(
    own_code_hash: String,
    block_size: usize,
    code_hash: String,
    address: String,
) -> (r: Result<WasmExecute, StdError>)
    ensures
        r is Ok <==> register_receive_payload(own_code_hash@, block_size) is Some,
        r matches Ok(m) ==> m@ == (WasmExecuteView {
            contract_addr: address@,
            callback_code_hash: code_hash@,
            msg: register_receive_payload(own_code_hash@, block_size).unwrap(),
        }),
{
    let contract = HumanAddr(address);
    match snip20::register_receive_msg(own_code_hash, None, block_size, code_hash, contract)? {
        CosmosMsg::Wasm(WasmMsg::Execute { msg, contract_addr, callback_code_hash, .. }) => {
            Ok(WasmExecute { contract_addr: contract_addr.0, callback_code_hash, msg: msg.0 })
        },
        _ => Err(StdError::generic_err("not a contract call")),
    }
}

/// The code hash and address of a contract.
#[derive(Clone, Debug, PartialEq, Eq)]
pub struct ContractInfo {
    pub code_hash: String,
    pub address: String,
}

/// What a [`ContractInfo`] stands for.
pub struct ContractView {
    pub code_hash: Seq<char>,
    pub address: Seq<char>,
}

impl View for ContractInfo {
    type V = ContractView;

    open spec fn view(&self) -> ContractView {
        ContractView { code_hash: self.code_hash@, address: self.address@ }
    }
}

/// The message that tells the token contract `contract` to move `amount` tokens to
/// `recipient`, where it can be built.
pub open spec fn transfer_message(contract: ContractView, recipient: Seq<char>, amount: u128) -> Option<
    WasmExecuteView,
> {
    match transfer_payload(recipient, amount, BLOCK_SIZE) {
        Some(msg) => Some(
            WasmExecuteView {
                contract_addr: contract.address,
                callback_code_hash: contract.code_hash,
                msg,
            },
        ),
        None => None,
    }
}

/// The message that tells the token contract `contract` to notify the contract with code
/// hash `code_hash` of deposits, where it can be built.
pub open spec fn register_receive_message(contract: ContractView, code_hash: Seq<char>) -> Option<
    WasmExecuteView,
> {
    match register_receive_payload(code_hash, BLOCK_SIZE) {
        Some(msg) => Some(
            WasmExecuteView {
                contract_addr: contract.address,
                callback_code_hash: contract.code_hash,
                msg,
            },
        ),
        None => None,
    }
}

/// The message that carries out the instruction `t`, where it can be built: a transfer at
/// the token contract that the instruction names.
pub open spec fn instruction_message(sell: ContractView, bid: ContractView, t: TransferView) -> Option<
    WasmExecuteView,
> {
    match t.endpoint {
        Endpoint::SaleToken => transfer_message(sell, t.recipient, t.amount),
        Endpoint::BidToken => transfer_message(bid, t.recipient, t.amount),
    }
}

impl ContractInfo {
    /// The message that tells this token contract to move `amount` tokens to `recipient`.
    pub fn transfer_msg(&self, recipient: String, amount: u128) -> (r: Result<WasmExecute, MessageError>)
        ensures
            match r {
                Ok(m) => transfer_message(self@, recipient@, amount) == Some(m@),
                Err(_) => transfer_message(self@, recipient@, amount) is None,
            },
    {
        match toolkit_transfer_msg(
            recipient,
            amount,
            BLOCK_SIZE,
            self.code_hash.clone(),
            self.address.clone(),
        ) {
            Ok(m) => Ok(m),
            Err(_) => Err(MessageError::Serialize),
        }
    }

    /// The message that tells this token contract to notify the contract with code hash
    /// `code_hash` whenever tokens are sent to it.
    pub fn register_receive_msg(&self, code_hash: String) -> (r: Result<WasmExecute, MessageError>)
        ensures
            match r {
                Ok(m) => register_receive_message(self@, code_hash@) == Some(m@),
                Err(_) => register_receive_message(self@, code_hash@) is None,
            },
    {
        match toolkit_register_receive_msg(
            code_hash,
            BLOCK_SIZE,
            self.code_hash.clone(),
            self.address.clone(),
        ) {
            Ok(m) => Ok(m),
            Err(_) => Err(MessageError::Serialize),
        }
    }
}

/// The messages that carry out `transfers`, one per instruction and in their order, each at
/// the token contract that its instruction names. Fails where one of them cannot be built.
pub fn transfer_messages(sell: &ContractInfo, bid: &ContractInfo, transfers: &Vec<Transfer>) -> (r: Result<
    Vec<WasmExecute>,
    MessageError,
>)
    ensures
        match r {
            Ok(messages) => {
                &&& messages@.len() == transfers@.len()
                &&& forall|i: int|
                    0 <= i < transfers@.len() ==> instruction_message(
                        sell@,
                        bid@,
                        #[trigger] transfers@[i]@,
                    ) == Some(messages@[i]@)
            },
            Err(_) => exists|i: int|
                0 <= i < transfers@.len() && instruction_message(
                    sell@,
                    bid@,
                    #[trigger] transfers@[i]@,
                ) is None,
        },
{
    let mut messages: Vec<WasmExecute> = Vec::new();
    let mut i: usize = 0;
    while i < transfers.len()
        invariant
            i <= transfers@.len(),
            messages@.len() == i,
            forall|j: int|
                0 <= j < i ==> instruction_message(sell@, bid@, #[trigger] transfers@[j]@) == Some(
                    messages@[j]@,
                ),
        decreases transfers.len() - i,
    {
        let t = &transfers[i];
        let built = match t.endpoint {
            Endpoint::SaleToken => sell.transfer_msg(t.recipient.clone(), t.amount),
            Endpoint::BidToken => bid.transfer_msg(t.recipient.clone(), t.amount),
        };
        match built {
            Ok(m) => {
                messages.push(m);
            },
            Err(e) => {
                assert(instruction_message(sell@, bid@, transfers@[i as int]@) is None);
                return Err(e);
            },
        }
        i = i + 1;
    }
    Ok(messages)
}

} // verus!

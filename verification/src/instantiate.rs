//! The instantiation of a contract as the command line asks for it.

use crate::msg_type::{message_bytes, msg_bytes, MsgBytesError, MsgType};
use crate::text::{clone_opt, opt_text};
use vstd::prelude::*;

verus! {

/// An amount of one denomination.
#[derive(Debug, PartialEq, Eq)]
pub struct Coin {
    pub denom: String,
    pub amount: u128,
}

/// Instantiate a contract: what the command line asks for.
#[derive(Debug, PartialEq, Eq)]
pub struct InstantiateContractCommands {
    /// Contract code id
    pub code_id: u64,
    /// How do you want to pass the message arguments?
    pub msg_type: MsgType,
    /// Enter message
    pub msg: String,
    /// Label for the contract
    pub label: String,
    /// Admin address of the contract, none to skip admin
    pub admin: Option<String>,
    /// Input coins
    pub coins: Vec<Coin>,
    pub signer: String,
}

/// The message that instantiates a contract.
#[derive(Debug, PartialEq, Eq)]
pub struct InstantiateMessage {
    pub sender: String,
    pub admin: Option<String>,
    pub code_id: u64,
    pub label: Option<String>,
    pub msg: Vec<u8>,
    pub funds: Vec<Coin>,
}

impl InstantiateContractCommands {
    /// The message that instantiates the contract for `sender`: the code,
    /// the label and the admin as they were entered, the funds as they were
    /// handed in, and the bytes that the entered message stands for.
    pub fn instantiate_message(&self, sender: String, funds: Vec<Coin>) -> (r: Result<
        InstantiateMessage,
        MsgBytesError,
    >)
        ensures
            match r {
                Ok(message) => message_bytes(self.msg@, self.msg_type) == Ok::<
                    Seq<u8>,
                    MsgBytesError,
                >(message.msg@) && message.sender == sender && message.code_id == self.code_id
                    && opt_text(message.admin) == opt_text(self.admin) && opt_text(message.label)
                    == Some(self.label@) && message.funds == funds,
                Err(e) => message_bytes(self.msg@, self.msg_type) == Err::<Seq<u8>, MsgBytesError>(
                    e,
                ),
            },
    {
        match msg_bytes(self.msg.clone(), self.msg_type) {
            Ok(msg) => Ok(
                InstantiateMessage {
                    sender,
                    admin: clone_opt(&self.admin),
                    code_id: self.code_id,
                    label: Some(self.label.clone()),
                    msg,
                    funds,
                },
            ),
            Err(e) => Err(e),
        }
    }
}

} // verus!

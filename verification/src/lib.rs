//! Orchestration of smart-contract deployments and of cross-chain packet
//! tracking, with the decisions of every flow stated as contracts.

pub mod ack;
pub mod address_book;
pub mod balance;
pub mod coins;
pub mod contract;
pub mod creation;
pub mod daemon;
pub mod diff;
pub mod encoding;
pub mod error;
pub mod follow;
pub mod ibc_tracker;
pub mod instantiate;
pub mod interchain_channel;
pub mod json;
pub mod keys;
pub mod msg_type;
pub mod outcome;
pub mod render;
pub mod sets;
pub mod state;
pub mod text;
pub mod text_map;
pub mod tx_resp;
pub mod upload;

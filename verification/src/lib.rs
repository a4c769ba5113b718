//! Remote control bridge of a kiosk panel: the command model, the RPC call
//! handler, the decisions of the UI command executor and the contract of the
//! external action runner, each with a verified contract.

pub mod active;
pub mod call;
pub mod common;
pub mod config;
pub mod eapi;
pub mod error;
pub mod ev_loop;
pub mod number;
pub mod payload;
pub mod process;
pub mod reply;
pub mod text;

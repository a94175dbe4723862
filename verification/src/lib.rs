//! Core logic of a one-shot desktop media-control tool: selecting the active
//! player, cycling between players, mapping a command to a transport action,
//! composing the confirmation notification, and the persisted selection record.
pub mod command;
pub mod cycle;
pub mod dispatch;
pub mod errors;
pub mod notify;
pub mod player;
pub mod resolve;
pub mod store;
pub mod text;

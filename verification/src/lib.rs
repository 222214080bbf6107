//! Request routing and chunk replication of a storage node.
//!
//! A node is an adult, which holds chunks, or an elder, which besides
//! handles the requests on the data of its section. Whatever reaches the
//! node is a message with a sender; whatever the node does is told to its
//! owner as a value. Nothing here reads a disk or a socket.
//!
//! - `data_handler` decides on every message that concerns data, and keeps
//!   the record of `duplication`: the copies of chunks under way.
//! - `laws` states what holds of those decisions whatever the message.
//! - `reading` lets a read through to the store only if a section vouches
//!   for it, which `bls` finds out.
//! - `section_funds` walks through the payment of a reward.
//! - `names`, `identity`, `rpc`, `dispatch` and `payload` are the values that
//!   these speak of.

pub mod bls;
pub mod data_handler;
pub mod dispatch;
pub mod duplication;
pub mod identity;
pub mod laws;
pub mod names;
pub mod payload;
pub mod reading;
pub mod rpc;
pub mod section_funds;

//! The core of a bot that logs the messages of group chats into a search
//! store and answers searches, each within the chats that the asking user
//! belongs to.
//!
//! Everything here is a decision or a computation on plain values. Talking
//! to the messaging platform and to the store is left to the caller.

pub mod auth;
pub mod decimal;
pub mod export;
pub mod handlers;
pub mod html;
pub mod membership;
pub mod normalize;
pub mod registry;
pub mod search;
pub mod text;
pub mod types;

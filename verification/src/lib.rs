//! Coordination core of a pay-per-minute streaming node: a value ledger, a
//! block producer, a media session manager and the bridge between them.

pub mod blockchain;
pub mod integration;
pub mod mobile;
pub mod streaming;
pub mod string_map;
pub mod text;
pub mod time;
pub mod web;
pub mod web_simple;

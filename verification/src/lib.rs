//! Agent registry and marketplace ledger: a pure state-transition engine for
//! agent registration, wallet accounting with escrow locking, service
//! request/completion/refund workflows, agent messaging, and the purchase
//! order -> invoice -> payment -> receipt lifecycle with financial
//! reconciliation.
//!
//! The persistent key-value store, message (de)serialization, and the host
//! runtime are external collaborators: this crate models the store as an
//! ordered string-keyed map and every call as an atomic transition on a
//! `State` value.

pub mod arith;
pub mod dispatch;
pub mod errors;
pub mod exec_agents;
pub mod exec_messages;
pub mod exec_procurement;
pub mod exec_services;
pub mod exec_transfer;
pub mod ids;
pub mod laws;
pub mod ledger;
pub mod notices;
pub mod order;
pub mod queries;
pub mod security;
pub mod state;
pub mod store;
pub mod text;
pub mod types;
pub mod wallet;

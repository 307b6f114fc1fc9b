//! Queries for a Solana node: identifiers, account records, the export
//! document and the command decisions around each remote call.
pub mod account;
pub mod command;
pub mod config;
pub mod connection;
pub mod error;
pub mod identifier;

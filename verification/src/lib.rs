//! Credential store, profile management and request gateway of a desktop
//! companion for a firewall appliance's REST management API.
//!
//! The store is held as plain values: the embedding application reads it
//! from disk, hands it to [`db::Database`], and writes back what the
//! operations leave. The gateway prepares a request and judges its outcome;
//! sending it is the application's part.

pub mod alias;
pub mod appliance;
pub mod commands;
pub mod dashboard;
pub mod db;
pub mod devices;
pub mod firewall;
pub mod firewall_logs;
pub mod hasher;
pub mod http_client;
pub mod invariants;
pub mod json;
pub mod migration;
pub mod power;
pub mod routes;
pub mod text;
pub mod traffic;
pub mod update_checker;

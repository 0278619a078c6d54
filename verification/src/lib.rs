//! A personal command-shortcut manager library: named shell statements with
//! optional descriptions and timestamps, a validating builder for them, an
//! in-memory table with the store's CRUD contract, and the pure decision
//! logic behind database provisioning and command-line dispatch.

pub mod cli;
pub mod command;
pub mod db;
pub mod store;

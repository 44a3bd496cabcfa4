//! Cold-chain temperature monitoring: the verified core.
//!
//! Devices report temperature readings; each reading is stored as a record
//! and the readings of every device are summarised per UTC hour.  This crate
//! holds the decisions of that service: how timestamps are truncated to hours,
//! which hours a batch of reports touches, how an hourly summary is assembled,
//! how the SQL of the read queries is built, and what the HTTP layer answers.

pub mod alerts;
pub mod http;
pub mod ids;
pub mod ingest;
pub mod models;
pub mod queries;
pub mod time;

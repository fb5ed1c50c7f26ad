pub mod cli;
pub mod config;
pub mod icmp;
pub mod models;
pub mod oid;
pub mod poller;
pub mod sender;
pub mod setup;
pub mod snmp;
pub mod text;
pub mod traits;
pub mod utils;

//! Verified core of a Popbill / Linkhub fax command-line client.
pub mod text;
pub mod decimal;
pub mod values;
pub mod envfile;
pub mod config;
pub mod request;
pub mod urlenc;
pub mod search;
pub mod crypto;
pub mod token;
pub mod gate;
pub mod commands;

//! Discord snowflake identifiers and the settings of a small Discord HTTP client.

pub mod decimal;
pub mod snowflake;
pub mod client;

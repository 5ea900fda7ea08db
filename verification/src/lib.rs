//! Verified core of a futures-trading account desk: account configuration, the rows kept
//! per trading account, the login and query sequence of a trader, and the bookkeeping
//! that keeps one trader per configured account.
pub mod command;
pub mod config;
pub mod db;
pub mod table;
pub mod text;
pub mod trader;

//! Scan engine for a watchlist of market symbols.
//!
//! The crate holds the decisions of a recurring scan: how a crossover of two
//! moving averages is classified, what a chart of it draws, how many symbol
//! tasks may run at once, and how the hits that come back are grouped into
//! deliveries of bounded size. Beside the scan stand the commands that keep
//! the watchlist: what a list of symbols names, and who may confirm a
//! removal. Fetching, drawing, storing and sending are left to the caller,
//! which reports what happened and is told what to do next.
//!
//! Every price and every point of a derived series is an `i64` on a scale
//! that keeps the order of the values it stands for.

pub mod card;
pub mod chart;
pub mod config;
pub mod confirm;
pub mod outcome;
pub mod price;
pub mod scan;
pub mod signal;
pub mod sink;
pub mod store;
pub mod symbol;
pub mod task;
pub mod text;
pub mod timeframe;

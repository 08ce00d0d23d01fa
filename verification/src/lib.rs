//! A market-data core: a sorted order book with upsert/delete-on-zero
//! semantics, fixed-capacity rolling windows with oldest-first
//! eviction, and an online statistics accumulator — all over exact
//! decimal values, with their behaviour stated in contracts and proved.
//!
//! The surrounding system (feed decoding, transport, rendering) hands
//! these components normalized value objects — prices, quantities,
//! sides, samples — and reads back sorted levels, the top of book, and
//! the current mean, variance and standard deviation.

pub mod algo;
pub mod common;
pub mod currency;
pub mod decimal;
pub mod error;
pub mod heartbeat;
pub mod market;
pub mod marketv2;
pub mod order_book;
pub mod period;
pub mod rest;
pub mod stats;
pub mod symbol;
pub mod tick;
pub mod ticker_v1;
pub mod ticker_v2;
pub mod window;

//! Spot arbitrage scanner core: exchange and symbol tables, order-book
//! message decoding, best buy/sell selection and subscription planning.

pub mod decimal;
pub mod text;
pub mod exchange;
pub mod symbol_names;
pub mod json;
pub mod dto;
pub mod decoder;
pub mod arbitrage;
pub mod stream;
pub mod signal;
pub mod services;

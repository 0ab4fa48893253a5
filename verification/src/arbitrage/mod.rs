//! Cross-exchange comparison of top-of-book snapshots.

pub mod utils;
pub mod order_book;

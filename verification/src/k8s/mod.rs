pub mod age;
pub mod client;
pub mod common;
pub mod detail;
pub mod listing;
pub mod objects;
pub mod ops;

//! A small web-server core — a fixed pool of workers draining a shared FIFO
//! job queue, a request handler, and validated configuration — together
//! with the smaller verified modules that grew around it: line search,
//! inventories, summaries, and other exercises.

pub mod auth;
pub mod blog;
pub mod coin;
pub mod config;
pub mod dice;
pub mod grep;
pub mod handler;
pub mod inventory;
pub mod ip_add;
pub mod node;
pub mod pointers;
pub mod pool;
pub mod restaurant;
pub mod screen;
pub mod segmentation;
pub mod server;
pub mod shoes;
pub mod summary;
pub mod testing;

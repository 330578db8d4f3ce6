//! Input handling for the GameCube controller adapter: decoding of its
//! reports, conditioning of the analog sticks, the cell that shares the
//! latest snapshot between threads, and the key word handed to an N64 host.

pub mod activity;
pub mod adapter;
pub mod channel;
pub mod config;
pub mod controller;
pub mod gca;
pub mod keys;
pub mod plugin;
pub mod poll;
pub mod shared;
pub mod stick;
pub mod transport;

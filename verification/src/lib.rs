//! Battery charge-limit daemon and command-line front end for Zenbook laptops.

pub mod text;
pub mod path;
pub mod supply;
pub mod adapter;
pub mod battery;
pub mod wifi;
pub mod monitor;
pub mod ipc;
pub mod service;
pub mod ui;
pub mod status;
pub mod cli;
pub mod completions;
pub mod wake;
pub mod time;
pub mod config;
pub mod state;
pub mod policy;

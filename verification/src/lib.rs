//! The rules of a launcher that finds the debugging endpoint of a
//! simulator's interface and delivers a script to it once per session page.

pub mod cdp;
pub mod config;
pub mod iracing;
pub mod json;
pub mod local_json;
pub mod monitor;
pub mod text;
pub mod tray;
pub mod update;

//! A terminal feed reader's core: the screen state machine, the key map and
//! the decisions of the event producer, each with a verified contract.

pub mod app;
pub mod ast;
pub mod config;
pub mod model;
pub mod rss;
pub mod tui;

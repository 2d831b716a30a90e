//! Layout decisions for the miri workspace manager on top of the niri compositor.
//!
//! The library decides which niri actions a workspace needs when windows open,
//! close, move or change between floating and tiling, and when a workspace is
//! switched between its master and scrolling layouts. Every decision is returned
//! as a sequence of [`plan::Step`]s; the program around it talks to niri.
pub mod service_state;
pub mod plan;
pub mod seq_util;
pub mod config;
pub mod niri_ipc_utils;
pub mod layout;
pub mod service;
pub mod mode_logic;

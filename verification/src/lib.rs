//! The decision core of a custom-cursor overlay: raw input merging, pointer
//! tracking, region editing, target-window following and overlay rendering.
//!
//! Everything here works on plain values. The operating system is reached
//! only by the program around this library, which performs the actions that
//! these functions decide on and hands back what it observed.

pub mod app;
pub mod args;
pub mod coalescer;
pub mod config;
pub mod coord;
pub mod cursor;
pub mod hooks;
pub mod input;
pub mod platform;
pub mod pointer_filter;
pub mod region;
pub mod render;
pub mod win32;

//! Verified core of an infinite-canvas Wayland compositor: key bindings,
//! focus history, IPC request handling, panel layout and configuration rules.

pub mod input;
pub mod focus;
pub mod text;
pub mod ipc;
pub mod config;
pub mod panel;
pub mod background;
pub mod x11;
pub mod minimap;
pub mod decor;
pub mod grid;
pub mod navigation;
pub mod programs;
pub mod frame;

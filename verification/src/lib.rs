//! The decision core of a single-window forward renderer: which device to
//! use, how the swapchain and its dependents are described and rebuilt, and
//! which commands one frame records, all over plain values.

pub mod data;
pub mod plugins;
pub mod renderer;

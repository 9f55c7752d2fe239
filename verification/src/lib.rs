//! Frame-lifecycle core of a 2D page viewer: the protocol that ties swapchain
//! recreation, per-image fences and command-buffer regeneration together, with
//! the page grid and its pan-and-zoom view, the glyph atlas and text layout, and
//! adapter selection. Everything is computed on integers; coordinates and scales
//! are fixed-point numbers that the application converts at the GPU's edge.

pub mod atlas;
pub mod commands;
pub mod device;
pub mod drawable;
pub mod error;
pub mod input;
pub mod page;
pub mod render;
pub mod scheduler;
pub mod signal;
pub mod text;
pub mod ui;

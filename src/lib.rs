//! Automatic split-orientation decisions for a tiling window manager.
//!
//! The library works on a snapshot of the window tree and decides which
//! layout command, if any, keeps the tiled windows close to square.
pub mod tree;
pub mod geometry;
pub mod config;
pub mod decide;
pub mod dispatch;

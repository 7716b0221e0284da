//! Placement, resizing and sticking of floating windows under Hyprland.
pub mod arith;
pub mod placement;
pub mod structs;
pub mod tags;
pub mod text;
pub mod resize;
pub mod layers;
pub mod cache;
pub mod config;
pub mod args;
pub mod open;
pub mod movewindow;
pub mod toggle;
pub mod data;
pub mod percent;

//! The decision-making core of a Vulkan rendering context: swapchain
//! configuration, per-image resource descriptions, device selection and the
//! per-frame acquire / submit / present cycle.
//!
//! Nothing here talks to the driver. Native handles are carried as raw
//! `u64` values and every native call is described by a plain value that the
//! embedding program executes.

pub mod constants;
mod native;
pub mod surface;
pub mod presentation;
pub mod buffers;
pub mod resources;
pub mod frame;
pub mod lifecycle;
pub mod event_loop;
pub mod vulkan_engine;
pub mod setup;
pub mod tools;
pub mod key_mappings;
pub mod vulkan_app;

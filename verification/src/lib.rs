//! Core of a real-time rendering engine on Vulkan: every decision the engine
//! takes between two driver calls, stated and proved over plain values.
//!
//! The driver itself is never called from here. The host performs each driver
//! call and hands the library what came back; the library answers with what to
//! ask of the driver next.
pub mod flags;
pub mod types;
pub mod context;
pub mod memory;
pub mod render_pass;
pub mod image;
pub mod depth;
pub mod swapchain;
pub mod frame;
pub mod command;
pub mod error;

//! Decision logic of a small real-time rendering engine, stated over plain
//! values and verified.
//!
//! The library chooses; the program around it makes the calls into the
//! graphics API and hands back what they returned. It ranks the physical
//! devices and chooses their queue families ([`device`]), chooses the
//! swapchain's parameters ([`swapchain`]), finds memory types and plans
//! staged uploads ([`memory`]), describes pipelines ([`pipeline`]), lists
//! the commands of a frame ([`commands`]), schedules the frames in flight
//! ([`frame`]) and orders the teardown ([`resources`]).

pub mod commands;
pub mod device;
pub mod error;
pub mod frame;
pub mod input;
pub mod instance;
pub mod memory;
pub mod mesh;
pub mod pipeline;
pub mod ranking;
pub mod renderer;
pub mod resources;
pub mod swapchain;
pub mod vulkan;
pub mod window;

//! Verified core of a voxel-chunk renderer.
//!
//! The renderer owns one graphics pipeline and its descriptor objects, and
//! issues one indirect draw per chunk against a shared draw buffer.  GPU work
//! itself is asynchronous and unverifiable, so this crate states the
//! renderer's logic over two recording harnesses: a [`device::DeviceLog`]
//! capturing every object creation and destruction, and a
//! [`commands::CommandStream`] capturing the commands appended for a frame.
//! An unverified interpreter replays the same decisions against a real
//! graphics device.

pub mod commands;
pub mod device;
pub mod lifecycle;
pub mod pipeline_state;
pub mod renderer;
pub mod terrain;

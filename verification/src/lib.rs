//! The logic of a small real-time renderer, without the driver.
//!
//! Nothing here touches the graphics driver, the window system or the disk.
//! Every operation is a state machine: it says which native calls the host is
//! to perform next ([`protocol::Request`]), takes what came back
//! ([`protocol::Event`]) and decides how to go on. What the machines own, and
//! that they give all of it back, is part of their contracts.
//!
//! - [`config`] chooses a graphics configuration, [`context`] creates a
//!   context by a chain of fallbacks.
//! - [`shader`], [`program`], [`texture`], [`vertex_array_objects`] and
//!   [`vertex_buffer_objects`] build and release the native objects.
//! - [`renderer_build`] initialises the [`renderer`], which draws the frames.
//! - [`application`] takes the renderer through activation, suspension and
//!   exit.

pub mod application;
pub mod config;
pub mod context;
pub mod debug;
pub mod error;
pub mod gl;
pub mod program;
pub mod protocol;
pub mod renderer;
pub mod renderer_build;
pub mod shader;
pub mod text;
pub mod texture;
pub mod vertex_array_objects;
pub mod vertex_buffer_objects;

//! OpenGL contexts on Windows through WGL.
//!
//! A [`device::Device`] creates and destroys contexts, makes them current, and attaches surfaces to
//! them. Every function of a device that needs the operating system or the OpenGL driver starts an
//! operation: it decides here and calls there. [`program`] says how an operation is carried out and
//! how its contract is stated; [`call`] lists the calls.
//!
//! - [`descriptor`], [`creation`] and [`destruction`] hold the life of a context, [`current`],
//!   [`surfaces`], [`framebuffers`] and [`symbols`] what is done with it in between.
//! - [`loader`] and [`extensions`] find the WGL extension functions that the rest needs.
//! - [`world`] models the thread that operations run on, and [`laws`] holds what is true of
//!   operations as a whole.

pub mod attributes;
pub mod call;
pub mod constants;
pub mod context;
pub mod creation;
pub mod current;
pub mod descriptor;
pub mod destruction;
pub mod device;
pub mod error;
pub mod extensions;
pub mod framebuffers;
pub mod handles;
pub mod laws;
pub mod loader;
pub mod pixel_format;
pub mod program;
pub mod surfaces;
pub mod symbols;
pub mod world;

//! A safety-hardening layer over a character-console device: a 2-D grid of
//! attribute-styled cells addressed by cell coordinates, together with a
//! queue of discrete input events (keyboard, mouse, resize, focus, menu).
//!
//! The device itself is modelled explicitly by [`device::Device`], a plain
//! value holding the channel table, the cell grid, the pending input queue
//! and the output transcript.  Every [`console::Console`] operation acts on
//! such a device value and is verified against a functional description of
//! what the device does: which inputs succeed, which error each failing
//! input reports, and exactly how the device state changes.  The platform
//! plumbing that carries these operations to a real console lives outside
//! the library.

pub mod console;
pub mod coord;
pub mod device;
pub mod encode;
pub mod error;
pub mod handle;
pub mod input;
pub mod laws;

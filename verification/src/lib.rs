//! Safety layer around an opaque, callback-driven Game Boy emulation core.
//!
//! The native core exposes its whole API as free functions on an opaque
//! handle and reports results through C-ABI callbacks.  Everything the
//! wrapper itself decides — the idle/running reentrancy guard, the pixel
//! buffer that is handed to the core as its render target, the event queue
//! filled by callback dispatch, printer page assembly, and the mapping of
//! raw core constants to closed enumerations — lives in this crate and is
//! verified.  The unsafe foreign calls themselves stay outside of it.

pub mod event;
pub mod gb;
pub mod laws;
pub mod model;
pub mod printer;
pub mod rgb_encoder;
pub mod text;
pub mod types;

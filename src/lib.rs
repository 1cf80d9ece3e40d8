//! Host/guest calling convention for sandboxed actor modules: bit-exact
//! pointer/length conversions, length-prefixed frames, the guest scratch
//! buffer, the host allocation cache and the host-side actor store.
pub mod convert;
pub mod frame;
pub mod memory;
pub mod cache;
pub mod runtime;
pub mod actor;

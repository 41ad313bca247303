//! A fixed-capacity bridge between listener objects and context-free
//! callback entry points.
//!
//! Each registered listener is bound to a slot identifier; a statically
//! enumerated entry point (a trampoline) is hard-wired to each identifier and
//! resolves its listener through the registry when the native side fires it.

pub mod listener;
pub mod registry;
pub mod slots;
pub mod status;
pub mod transport;
pub mod laws;

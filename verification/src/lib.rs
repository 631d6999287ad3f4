//! Capability-negotiation and dispatch layer for the extension interop
//! mechanism between a plugin and a host that exchange fixed, versioned
//! function tables across an ABI boundary.
//!
//! The library covers: typed identification of extension handles, the
//! construction of the function tables each side publishes, the fail-closed
//! dispatch wrappers that bridge untyped incoming calls to a typed local
//! implementation, the bounded output writer used to return variable-length
//! sequences into caller-owned storage, and the wire-level value objects
//! (ambisonic configuration records, surround channel sets) of the two
//! worked extensions.

pub mod ambisonic;
pub mod boundary;
pub mod extension;
pub mod surround;

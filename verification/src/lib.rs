//! A capability bridge: a fixed catalog of host operations (encoding,
//! digests, network requests, directory binds) exposed to an embedded,
//! dynamically typed scripting environment.
//!
//! Values crossing the boundary are modelled by a closed tagged union
//! ([`value::Value`]); operational failures are reported through a
//! per-context error slot rather than by raising exceptions; network
//! requests go through a two-phase build/send lifecycle backed by a
//! token-keyed store.

pub mod codec;
pub mod ctx;
pub mod digest;
pub mod htmlq;
pub mod ldap;
pub mod numtext;
pub mod options;
pub mod random;
pub mod registry;
pub mod render;
pub mod spawn;
pub mod strutil;
pub mod transport;
pub mod value;

use vstd::prelude::*;

verus! {

/// Marker returned by a capability when an operational failure has been
/// written to the context's error slot; the script sees a falsy result
/// and can read the message back through the error accessor.
#[derive(Debug)]
pub struct SoftFail;

} // verus!

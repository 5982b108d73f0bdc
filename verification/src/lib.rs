//! A verified translation layer in front of an external on-chain asset program.
//!
//! The library turns four user intents — create a collection, mint an asset,
//! update metadata, transfer ownership — into fully determined invocation
//! records addressed to the fixed external asset program. Every account list,
//! plugin record and argument translation is specified and proved; the
//! cross-program call itself is performed by the caller.

pub mod dispatch;
pub mod ids;
pub mod instructions;
pub mod laws;
pub mod model;
pub mod translate;

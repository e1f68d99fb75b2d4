//! Verified core of a cross-API presentation pipeline: the lifecycle of the
//! shared GPU textures, the lock/unlock handshake between the rendering API
//! and the presentation API, and the order of every driver call.
//!
//! The library performs no driver call itself. Each operation says which
//! call has to be made next and consumes the reply to it.

pub mod batch;
pub mod context;
pub mod d3d;
pub mod device;
pub mod driver;
pub mod error;
pub mod handles;
pub mod holdings;
pub mod laws;
pub mod model;
pub mod registry;
pub mod session;
pub mod setup;
pub mod surface;
pub mod texture;
pub mod wgl;

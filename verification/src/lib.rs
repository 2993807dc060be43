//! Client-side core of the Arrow Flight SQL protocol.
//!
//! The crate models the protocol pieces a Flight SQL client must get right:
//! packing typed commands into the type-tagged envelope the server expects,
//! the descriptor / flight-info / ticket retrieval protocol, the prepared
//! statement lifecycle, and decoding Flight data frames into columnar
//! batches.  Transport (gRPC) is left to the caller, which hands the
//! functions here the plain bytes it sent or received.

pub mod decode;
pub mod envelope;
pub mod errors;
pub mod flight;
pub mod ipc;
pub mod messages;
pub mod prepared;
pub mod session;
pub mod tags;
pub mod wire;

//! Client side of a cross-chain storage order: prices a storage request in one
//! of two accepted fee assets, and composes the instructions that pay for the
//! order and dispatch it on the storage chain.
//!
//! The outside work of an order (resolving the payment currency, charging the
//! caller, telling where the local chain lies, handing the message to the
//! transport) is done by the embedding runtime; every decision between those
//! steps is made here. The fee asset is re-expressed for the destination with
//! XCM v2's own reanchoring, and the remote call is SCALE encoded.

pub mod primitives;
pub mod fee;
pub mod location;
pub mod call;
pub mod instruction;
pub mod pallet;
pub mod laws;

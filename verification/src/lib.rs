//! A bidirectional call bridge between a sandboxed smart contract and its
//! host runtime.
//!
//! Contract code reaches the host through a *chain extension*: a numeric
//! function id plus a binary-encoded argument buffer is routed by the host
//! dispatcher to a registered handler, and the outcome travels back as a
//! status code plus an output buffer.  The host reaches the contract through
//! a *bare call*: a selector plus encoded arguments is handed to the
//! contract's entry point, and the raw return bytes travel back.

pub mod account;
pub mod bridge;
pub mod codec;
pub mod contract;
pub mod dispatcher;
pub mod env;
pub mod extension;
pub mod frame;
pub mod pallet;
pub mod status;
pub mod storage;

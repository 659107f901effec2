//! Core of a KeyMint trusted application: keyblob sealing, the codec for
//! the wire structures, and the request-driven state machine.

pub mod bytes;
pub mod cbor;
pub mod crypto;
pub mod device;
pub mod error;
pub mod hal;
pub mod wire;
pub mod keyblob;
pub mod ta;
pub mod tag;

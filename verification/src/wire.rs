//! The types that cross the boundary between the host and the trusted
//! application, and their CBOR form.

pub mod keymint;
pub mod params;
pub mod characteristics;
pub mod messages;
pub mod types;

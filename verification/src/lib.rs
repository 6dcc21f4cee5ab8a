//! Bit-exact encoding and decoding of PCI Express transaction layer packet
//! (TLP) headers.
//!
//! Every codec in this crate is stated twice: once as a specification function
//! over plain values and byte sequences, and once as executable code that is
//! proved to compute exactly that function.

use vstd::prelude::*;

pub mod address;
pub mod bits;
pub mod device_id;
pub mod endian;
pub mod headers;
pub mod packets;

pub use address::Address;
pub use device_id::DeviceID;
pub use device_id::DeviceIDError;
pub use headers::AddressType;
pub use headers::CompletionStatus;
pub use headers::CplHeader;
pub use headers::RequestHeader;
pub use headers::TlpError;
pub use headers::TlpHeader;
pub use headers::TlpFormat;
pub use headers::TlpType;
pub use headers::TrafficClass;
pub use packets::MRd;

verus! {

/// Data word size in bytes
pub const DWORD_LEN: usize = 4;

/// Maximum TLP payload size in bytes
pub const MAX_DATA_LEN: usize = 1024 * DWORD_LEN;

/// Maximum size of a TLP with data in bytes: a header of four data words
/// and the largest payload
pub const MAX_TLP_BUFFER: usize = 4 * DWORD_LEN + MAX_DATA_LEN;

} // verus!

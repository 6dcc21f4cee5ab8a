//! The bus, device and function number that names a PCIe function.

use vstd::prelude::*;
use core::num::ParseIntError;
use crate::bits::{lemma_bdf_parts_value, lemma_bdf_ranges, lemma_bdf_unpack, lemma_bdf_value};
use crate::endian::{be16, hi8, lemma_be16_bytes_value, lemma_be16_join_value, lemma_be16_split,
    lo8, read_u16_be};
use crate::headers::TlpError;

pub mod text;

verus! {

/// The error of a failed number parse, carried through unopened.
#[verifier::external_type_specification]
#[verifier::external_body]
pub struct ExParseIntError(ParseIntError);

/// `Clone::clone` of the parse error: the copy equals the value it was made from.
pub assume_specification[ <ParseIntError as Clone>::clone ](e: &ParseIntError) -> (r: ParseIntError)
    ensures
        r == *e,
;

/// Configuration space address that identifies a device on the PCIe fabric
#[derive(Clone, Copy, Debug, PartialEq, Eq, Structural)]
pub struct DeviceID {
    /// PCIe bus
    pub bus: u8,
    /// PCIe device, 0 to 31
    pub device: u8,
    /// PCIe function, 0 to 7
    pub function: u8,
}

/// Why a device id could not be built or parsed.
#[derive(Clone, Debug, PartialEq, Eq)]
pub enum DeviceIDError {
    /// The text is not seven characters long.
    IncorrectStrLen,
    /// The separators are not where they belong.
    InvalidFormat,
    /// The device or the function number is too large.
    OutOfRange,
    /// One of the three numbers is not hexadecimal.
    IntError(ParseIntError),
}

impl DeviceID {
    /// The device fits five bits and the function three.
    pub open spec fn wf(self) -> bool {
        self.device <= 31 && self.function <= 7
    }

    /// What `new` returns.
    pub open spec fn checked(bus: u8, device: u8, function: u8) -> Result<DeviceID, DeviceIDError> {
        if device > 31 || function > 7 {
            Err(DeviceIDError::OutOfRange)
        } else {
            Ok(DeviceID { bus, device, function })
        }
    }

    /// The id as one 16-bit number: the bus in the upper byte, the device in
    /// bits 3 to 7 of the lower byte, the function in bits 0 to 2.
    pub open spec fn packed(self) -> u16 {
        (self.bus as u16) << 8 | (self.device as u16) << 3 | (self.function as u16)
    }

    /// The id that a 16-bit number stands for.
    pub open spec fn unpacked(y: u16) -> DeviceID {
        DeviceID {
            bus: ((y & 0xFF00) >> 8) as u8,
            device: ((y & 0xFF) >> 3) as u8,
            function: (y & 0x7) as u8,
        }
    }

    /// The two bytes of the id on the wire: the packed number, big-endian.
    pub open spec fn wire(self) -> Seq<u8> {
        seq![hi8(self.packed()), lo8(self.packed())]
    }

    /// What two bytes decode to.
    pub open spec fn decode(b: Seq<u8>) -> DeviceID
        recommends
            b.len() == 2,
    {
        DeviceID::unpacked(be16(b[0], b[1]))
    }

    /// What a buffer of any length decodes to: the length is judged first.
    pub open spec fn decode_slice(b: Seq<u8>) -> Result<DeviceID, TlpError> {
        if b.len() < 2 {
            Err(TlpError::TooShort)
        } else if b.len() > 2 {
            Err(TlpError::TooLong)
        } else {
            Ok(DeviceID::decode(b))
        }
    }

    /// Builds an id, rejecting a device above 31 and a function above 7.
    pub fn new(bus: u8, device: u8, function: u8) -> (r: Result<DeviceID, DeviceIDError>)
        ensures
            r == DeviceID::checked(bus, device, function),
            r is Ok <==> device <= 31 && function <= 7,
            r is Ok ==> r.unwrap().wf(),
    {
        if device > 31 || function > 7 {
            Err(DeviceIDError::OutOfRange)
        } else {
            Ok(DeviceID { bus, device, function })
        }
    }

    /// Encodes the id into two bytes, big-endian.
    pub fn to_bytes(&self) -> (r: [u8; 2])
        ensures
            r@ == self.wire(),
            self.wf() ==> r[0] == self.bus && r[1] == (self.device << 3 | self.function),
    {
        let x: u16 = (self.bus as u16) << 8 | (self.device as u16) << 3 | (self.function as u16);
        proof {
            lemma_be16_split(x);
            if self.wf() {
                lemma_bdf_unpack(self.bus, self.device, self.function);
            }
        }
        let r = [(x >> 8) as u8, (x & 0xFF) as u8];
        assert(r@ =~= self.wire());
        r
    }

    /// Decodes an id from two bytes, big-endian. Every pair of bytes is an id.
    pub fn from_bytes(bytes: [u8; 2]) -> (r: DeviceID)
        ensures
            r == DeviceID::decode(bytes@),
            r.wf(),
    {
        let y: u16 = (bytes[0] as u16) << 8 | (bytes[1] as u16);
        DeviceID::from_packed(y)
    }

    /// Cuts a 16-bit number into bus, device and function.
    fn from_packed(y: u16) -> (r: DeviceID)
        ensures
            r == DeviceID::unpacked(y),
            r.wf(),
    {
        proof {
            lemma_bdf_ranges(y);
        }
        let bus = ((y & 0xFF00) >> 8) as u8;
        let device = ((y & 0xFF) >> 3) as u8;
        let function = (y & 0x7) as u8;
        DeviceID { bus, device, function }
    }

    /// A buffer shorter than two bytes is too short and a longer one too
    /// long; two bytes always decode.
    pub proof fn lemma_length_guard(b: Seq<u8>)
        ensures
            b.len() < 2 ==> DeviceID::decode_slice(b) == Err::<DeviceID, TlpError>(
                TlpError::TooShort,
            ),
            b.len() > 2 ==> DeviceID::decode_slice(b) == Err::<DeviceID, TlpError>(
                TlpError::TooLong,
            ),
            b.len() == 2 ==> DeviceID::decode_slice(b) == Ok::<DeviceID, TlpError>(
                DeviceID::decode(b),
            ),
    {
    }

    /// A well-formed id as numbers: 256 times the bus, 8 times the device
    /// and the function make the packed number, whose bytes are the bus and
    /// the rest.
    pub proof fn lemma_packed_value(self)
        requires
            self.wf(),
        ensures
            self.packed() == self.bus * 256 + self.device * 8 + self.function,
            self.wire() =~= seq![self.bus, (self.device * 8 + self.function) as u8],
    {
        lemma_bdf_value(self.bus, self.device, self.function);
        lemma_be16_bytes_value(self.packed());
    }

    /// The parts of a 16-bit number as quotients and remainders, and the
    /// number of two bytes as a sum.
    pub proof fn lemma_unpacked_value(y: u16, b: Seq<u8>)
        requires
            b.len() == 2,
        ensures
            DeviceID::unpacked(y) == (DeviceID {
                bus: (y / 256) as u8,
                device: ((y % 256) / 8) as u8,
                function: (y % 8) as u8,
            }),
            DeviceID::decode(b) == (DeviceID {
                bus: b[0],
                device: (b[1] / 8) as u8,
                function: (b[1] % 8) as u8,
            }),
    {
        lemma_bdf_parts_value(y);
        lemma_bdf_parts_value(be16(b[0], b[1]));
        lemma_be16_join_value(b[0], b[1]);
    }

    /// Whatever a 16-bit number unpacks to is well formed.
    pub proof fn lemma_unpacked_wf(y: u16)
        ensures
            DeviceID::unpacked(y).wf(),
    {
        lemma_bdf_ranges(y);
    }

    /// Decoding inverts encoding on well-formed ids, for bytes and for the
    /// packed number alike.
    pub proof fn lemma_roundtrip(self)
        requires
            self.wf(),
        ensures
            DeviceID::decode(self.wire()) == self,
            DeviceID::decode_slice(self.wire()) == Ok::<DeviceID, TlpError>(self),
            DeviceID::unpacked(self.packed()) == self,
    {
        lemma_bdf_unpack(self.bus, self.device, self.function);
        lemma_be16_split(self.packed());
    }
}

impl Default for DeviceID {
    fn default() -> (r: DeviceID)
        ensures
            r == (DeviceID { bus: 0, device: 0, function: 0 }),
    {
        DeviceID { bus: 0, device: 0, function: 0 }
    }
}

impl From<u16> for DeviceID {
    fn from(i: u16) -> (r: DeviceID)
        ensures
            r == DeviceID::unpacked(i),
            r.wf(),
    {
        DeviceID::from_packed(i)
    }
}

impl vstd::std_specs::convert::FromSpecImpl<u16> for DeviceID {
    open spec fn obeys_from_spec() -> bool {
        true
    }

    open spec fn from_spec(i: u16) -> DeviceID {
        DeviceID::unpacked(i)
    }
}

impl From<DeviceID> for u16 {
    fn from(did: DeviceID) -> (r: u16)
        ensures
            r == did.packed(),
    {
        (did.bus as u16) << 8 | (did.device as u16) << 3 | (did.function as u16)
    }
}

impl vstd::std_specs::convert::FromSpecImpl<DeviceID> for u16 {
    open spec fn obeys_from_spec() -> bool {
        true
    }

    open spec fn from_spec(did: DeviceID) -> u16 {
        did.packed()
    }
}

impl TryFrom<&[u8]> for DeviceID {
    type Error = TlpError;

    fn try_from(value: &[u8]) -> (r: Result<DeviceID, TlpError>)
        ensures
            r == DeviceID::decode_slice(value@),
            r is Ok ==> r.unwrap().wf(),
    {
        if value.len() < 2 {
            Err(TlpError::TooShort)
        } else if value.len() > 2 {
            Err(TlpError::TooLong)
        } else {
            let did = read_u16_be(value);
            Ok(DeviceID::from_packed(did))
        }
    }
}

impl vstd::std_specs::convert::TryFromSpecImpl<&[u8]> for DeviceID {
    open spec fn obeys_try_from_spec() -> bool {
        true
    }

    open spec fn try_from_spec(value: &[u8]) -> Result<DeviceID, TlpError> {
        DeviceID::decode_slice(value@)
    }
}

impl From<ParseIntError> for DeviceIDError {
    fn from(e: ParseIntError) -> (r: DeviceIDError)
        ensures
            r == DeviceIDError::IntError(e),
    {
        DeviceIDError::IntError(e)
    }
}

impl vstd::std_specs::convert::FromSpecImpl<ParseIntError> for DeviceIDError {
    open spec fn obeys_from_spec() -> bool {
        true
    }

    open spec fn from_spec(e: ParseIntError) -> DeviceIDError {
        DeviceIDError::IntError(e)
    }
}

} // verus!

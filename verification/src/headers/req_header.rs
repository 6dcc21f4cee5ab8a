//! The eight-byte header of a request: the base header, the requester, a
//! tag and the byte enables.

use vstd::prelude::*;
use vstd::std_specs::convert::IntoSpec;
use crate::bits::{lemma_field_ranges, lemma_nibbles_unpack, lemma_nibbles_value};
use crate::endian::{be16, read_u16_be};
use crate::device_id::DeviceID;
use crate::headers::{TlpError, TlpHeader};

verus! {

/// The header of a request.
#[derive(Clone, Copy, Debug, PartialEq, Eq, Structural)]
pub struct RequestHeader {
    /// The base header
    pub hdr: TlpHeader,
    /// The requester
    pub req_id: DeviceID,
    /// The tag that a completion will carry back
    pub tag: u8,
    /// Byte enables of the first data word, 0 to 15
    pub first_be: u8,
    /// Byte enables of the last data word, 0 to 15
    pub last_be: u8,
}

impl RequestHeader {
    /// Both embedded values are well formed and each byte-enable field fits
    /// its four bits.
    pub open spec fn wf(self) -> bool {
        &&& self.hdr.wf()
        &&& self.req_id.wf()
        &&& self.first_be <= 0xF
        &&& self.last_be <= 0xF
    }

    /// The header that `new` and `default` return.
    pub open spec fn initial() -> RequestHeader {
        RequestHeader {
            hdr: TlpHeader::initial(),
            req_id: DeviceID { bus: 0, device: 0, function: 0 },
            tag: 0,
            first_be: 0,
            last_be: 0,
        }
    }

    /// The byte enables that go with the base header's length: all of the
    /// first data word, and all of the last unless the request is one data
    /// word long.
    pub open spec fn enabled(self) -> RequestHeader {
        RequestHeader {
            first_be: 0xF,
            last_be: if self.hdr.length == 1 {
                0u8
            } else {
                0xFu8
            },
            ..self
        }
    }

    /// The last byte of the wire form: the last byte enables in the upper
    /// nibble, the first in the lower.
    pub open spec fn enables(self) -> u8 {
        (self.last_be << 4) | self.first_be
    }

    /// The eight bytes of the header on the wire.
    pub open spec fn wire(self) -> Seq<u8> {
        self.hdr.wire() + self.req_id.wire() + seq![self.tag, self.enables()]
    }

    /// What eight bytes decode to. Only the base header can be rejected.
    pub open spec fn decode(b: Seq<u8>) -> Result<RequestHeader, TlpError>
        recommends
            b.len() == 8,
    {
        match TlpHeader::decode(b.subrange(0, 4)) {
            Err(e) => Err(e),
            Ok(hdr) => Ok(
                RequestHeader {
                    hdr,
                    req_id: DeviceID::decode(b.subrange(4, 6)),
                    tag: b[6],
                    first_be: b[7] & 0xF,
                    last_be: (b[7] & 0xF0) >> 4,
                },
            ),
        }
    }

    /// What a buffer of any length decodes to: the length is judged first.
    pub open spec fn decode_slice(b: Seq<u8>) -> Result<RequestHeader, TlpError> {
        if b.len() < 8 {
            Err(TlpError::TooShort)
        } else if b.len() > 8 {
            Err(TlpError::TooLong)
        } else {
            RequestHeader::decode(b)
        }
    }

    /// Decodes a header from its eight bytes.
    pub fn from_bytes(bytes: [u8; 8]) -> (r: Result<RequestHeader, TlpError>)
        ensures
            r == RequestHeader::decode(bytes@),
            r is Ok ==> r.unwrap().wf(),
    {
        let hdr = match TlpHeader::try_from(&bytes[0..4]) {
            Ok(h) => h,
            Err(e) => {
                return Err(e);
            },
        };
        let req_id: DeviceID = read_u16_be(&bytes[4..6]).into();
        let tag = bytes[6];
        proof {
            TlpHeader::lemma_decode_wf(bytes@.subrange(0, 4));
            DeviceID::lemma_unpacked_wf(be16(bytes[4], bytes[5]));
            lemma_field_ranges(bytes[7]);
        }
        let first_be = bytes[7] & 0xF;
        let last_be = (bytes[7] & 0xF0) >> 4;

        Ok(RequestHeader { hdr, req_id, tag, first_be, last_be })
    }

    /// Encodes the header into its eight bytes.
    pub fn to_bytes(&self) -> (r: [u8; 8])
        ensures
            r@ == self.wire(),
    {
        let h = self.hdr.to_bytes();
        let d = self.req_id.to_bytes();
        let r = [h[0], h[1], h[2], h[3], d[0], d[1], self.tag, (self.last_be << 4) | self.first_be];
        assert(r@ =~= self.wire());
        r
    }

    /// Sets the byte enables that go with the base header's length.
    pub fn set_byte_enables(&mut self)
        ensures
            *final(self) == old(self).enabled(),
    {
        self.first_be = 0xF;
        self.last_be = match self.hdr.length {
            1 => 0,
            _ => 0xF,
        }
    }

    /// A header with every field at its default.
    pub fn new() -> (r: RequestHeader)
        ensures
            r == RequestHeader::initial(),
            r.wf(),
    {
        RequestHeader::default()
    }

    /// The same header with the base header replaced.
    pub fn with_hdr(self, hdr: TlpHeader) -> (r: RequestHeader)
        ensures
            r == (RequestHeader { hdr, ..self }),
    {
        let mut req = self;
        req.hdr = hdr;
        req
    }

    /// The same header with the requester replaced by what `req_id` converts
    /// into.
    pub fn with_req_id<T>(self, req_id: T) -> (r: RequestHeader) where T: Into<DeviceID>
        ensures
            r == (RequestHeader { req_id: r.req_id, ..self }),
            call_ensures(T::into, (req_id,), r.req_id),
            T::obeys_into_spec() ==> r.req_id == req_id.into_spec(),
    {
        let did = req_id.into();
        let mut req = self;
        req.req_id = did;
        req
    }

    /// The same header with the tag replaced.
    pub fn with_tag(self, tag: u8) -> (r: RequestHeader)
        ensures
            r == (RequestHeader { tag, ..self }),
    {
        let mut req = self;
        req.tag = tag;
        req
    }

    /// The same header with the first byte enables replaced, which must fit
    /// four bits.
    pub fn with_first_be(self, first_be: u8) -> (r: Result<RequestHeader, TlpError>)
        ensures
            first_be > 0xF ==> r == Err::<RequestHeader, TlpError>(TlpError::TooLong),
            first_be <= 0xF ==> r == Ok::<RequestHeader, TlpError>(
                RequestHeader { first_be, ..self },
            ),
    {
        if first_be > 0xF {
            Err(TlpError::TooLong)
        } else {
            let mut req = self;
            req.first_be = first_be;
            Ok(req)
        }
    }

    /// The same header with the last byte enables replaced, which must fit
    /// four bits.
    pub fn with_last_be(self, last_be: u8) -> (r: Result<RequestHeader, TlpError>)
        ensures
            last_be > 0xF ==> r == Err::<RequestHeader, TlpError>(TlpError::TooLong),
            last_be <= 0xF ==> r == Ok::<RequestHeader, TlpError>(
                RequestHeader { last_be, ..self },
            ),
    {
        if last_be > 0xF {
            Err(TlpError::TooLong)
        } else {
            let mut req = self;
            req.last_be = last_be;
            Ok(req)
        }
    }

    /// The same header with the byte enables that go with the base header's
    /// length.
    pub fn with_byte_enables(self) -> (r: RequestHeader)
        ensures
            r == self.enabled(),
    {
        let mut req = self;
        req.set_byte_enables();
        req
    }

    /// A buffer shorter than eight bytes is too short and a longer one too
    /// long; one of exactly eight bytes is judged by its content and never
    /// by its length.
    pub proof fn lemma_length_guard(b: Seq<u8>)
        ensures
            b.len() < 8 ==> RequestHeader::decode_slice(b) == Err::<RequestHeader, TlpError>(TlpError::TooShort),
            b.len() > 8 ==> RequestHeader::decode_slice(b) == Err::<RequestHeader, TlpError>(TlpError::TooLong),
            b.len() == 8 ==> RequestHeader::decode_slice(b) == RequestHeader::decode(b),
            b.len() == 8 ==> RequestHeader::decode_slice(b) != Err::<RequestHeader, TlpError>(TlpError::TooShort)
                && RequestHeader::decode_slice(b) != Err::<RequestHeader, TlpError>(TlpError::TooLong),
    {
    }

    /// The byte-enable byte of a well-formed header as a number.
    pub proof fn lemma_enables_value(self)
        requires
            self.wf(),
        ensures
            self.enables() == self.last_be * 16 + self.first_be,
    {
        lemma_nibbles_value(self.last_be, self.first_be);
    }

    /// Decoding inverts encoding on well-formed headers.
    pub proof fn lemma_roundtrip(self)
        requires
            self.wf(),
        ensures
            RequestHeader::decode(self.wire()) == Ok::<RequestHeader, TlpError>(self),
            RequestHeader::decode_slice(self.wire()) == Ok::<RequestHeader, TlpError>(self),
    {
        let b = self.wire();
        assert(b.subrange(0, 4) =~= self.hdr.wire());
        assert(b.subrange(4, 6) =~= self.req_id.wire());
        self.hdr.lemma_roundtrip();
        self.req_id.lemma_roundtrip();
        lemma_nibbles_unpack(self.last_be, self.first_be);
    }
}

impl Default for RequestHeader {
    fn default() -> (r: RequestHeader)
        ensures
            r == RequestHeader::initial(),
    {
        RequestHeader {
            hdr: TlpHeader::default(),
            req_id: DeviceID::default(),
            tag: 0,
            first_be: 0,
            last_be: 0,
        }
    }
}

impl TryFrom<[u8; 8]> for RequestHeader {
    type Error = TlpError;

    fn try_from(value: [u8; 8]) -> (r: Result<RequestHeader, TlpError>)
        ensures
            r == RequestHeader::decode(value@),
    {
        RequestHeader::from_bytes(value)
    }
}

impl vstd::std_specs::convert::TryFromSpecImpl<[u8; 8]> for RequestHeader {
    open spec fn obeys_try_from_spec() -> bool {
        true
    }

    open spec fn try_from_spec(value: [u8; 8]) -> Result<RequestHeader, TlpError> {
        RequestHeader::decode(value@)
    }
}

impl TryFrom<&[u8]> for RequestHeader {
    type Error = TlpError;

    fn try_from(value: &[u8]) -> (r: Result<RequestHeader, TlpError>)
        ensures
            r == RequestHeader::decode_slice(value@),
    {
        if value.len() < 8 {
            Err(TlpError::TooShort)
        } else if value.len() > 8 {
            Err(TlpError::TooLong)
        } else {
            let bytes = [
                value[0],
                value[1],
                value[2],
                value[3],
                value[4],
                value[5],
                value[6],
                value[7],
            ];
            assert(bytes@ =~= value@);
            RequestHeader::from_bytes(bytes)
        }
    }
}

impl vstd::std_specs::convert::TryFromSpecImpl<&[u8]> for RequestHeader {
    open spec fn obeys_try_from_spec() -> bool {
        true
    }

    open spec fn try_from_spec(value: &[u8]) -> Result<RequestHeader, TlpError> {
        RequestHeader::decode_slice(value@)
    }
}

impl From<RequestHeader> for [u8; 8] {
    fn from(hdr: RequestHeader) -> (r: [u8; 8])
        ensures
            r@ == hdr.wire(),
    {
        hdr.to_bytes()
    }
}

impl vstd::std_specs::convert::FromSpecImpl<RequestHeader> for [u8; 8] {
    open spec fn obeys_from_spec() -> bool {
        true
    }

    open spec fn from_spec(hdr: RequestHeader) -> [u8; 8] {
        [
            hdr.wire()[0],
            hdr.wire()[1],
            hdr.wire()[2],
            hdr.wire()[3],
            hdr.wire()[4],
            hdr.wire()[5],
            hdr.wire()[6],
            hdr.wire()[7],
        ]
    }
}

} // verus!

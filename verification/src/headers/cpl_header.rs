//! The twelve-byte header of a completion: the base header, the completer,
//! status and byte count, the requester, its tag and the low address bits.

use vstd::prelude::*;
use vstd::std_specs::convert::IntoSpec;
use crate::bits::{lemma_status_ranges, lemma_status_unpack, lemma_status_value};
use crate::endian::{be16, hi8, lemma_be16_split, lo8, read_u16_be};
use crate::device_id::DeviceID;
use crate::headers::{CompletionStatus, TlpError, TlpHeader};

verus! {

/// The header of a completion.
#[derive(Clone, Copy, Debug, PartialEq, Eq, Structural)]
pub struct CplHeader {
    /// The base header
    pub hdr: TlpHeader,
    /// The completer
    pub cpl_id: DeviceID,
    /// Bytes that remain to be sent for the request, 0 to 4095
    pub bc: u16,
    /// How the request ended
    pub status: CompletionStatus,
    /// The requester
    pub req_id: DeviceID,
    /// The tag of the request
    pub tag: u8,
    /// The low bits of the address of the first byte sent, 0 to 127
    pub addr_low: u8,
}

impl CplHeader {
    /// The embedded values are well formed, the byte count is at most 4095
    /// and the low address fits seven bits.
    pub open spec fn wf(self) -> bool {
        &&& self.hdr.wf()
        &&& self.cpl_id.wf()
        &&& self.bc <= 4095
        &&& self.req_id.wf()
        &&& self.addr_low <= 127
    }

    /// The header that `new` and `default` return.
    pub open spec fn initial() -> CplHeader {
        CplHeader {
            hdr: TlpHeader::initial(),
            cpl_id: DeviceID { bus: 0, device: 0, function: 0 },
            bc: 0,
            status: CompletionStatus::SuccessfulCompletion,
            req_id: DeviceID { bus: 0, device: 0, function: 0 },
            tag: 0,
            addr_low: 0,
        }
    }

    /// The status in the upper three bits of a 16-bit word, the byte count
    /// below it.
    pub open spec fn bc_status(self) -> u16 {
        ((self.status.code() as u16) << 13) | self.bc
    }

    /// The twelve bytes of the header on the wire.
    pub open spec fn wire(self) -> Seq<u8> {
        self.hdr.wire() + self.cpl_id.wire() + seq![hi8(self.bc_status()), lo8(self.bc_status())]
            + self.req_id.wire() + seq![self.tag, self.addr_low]
    }

    /// What twelve bytes decode to. The base header is judged first, then
    /// the status; nothing else can be rejected.
    pub open spec fn decode(b: Seq<u8>) -> Result<CplHeader, TlpError>
        recommends
            b.len() == 12,
    {
        match TlpHeader::decode(b.subrange(0, 4)) {
            Err(e) => Err(e),
            Ok(hdr) => match CompletionStatus::from_code(
                ((be16(b[6], b[7]) & 0xE000) >> 13) as u8,
            ) {
                None => Err(TlpError::InvalidType),
                Some(status) => Ok(
                    CplHeader {
                        hdr,
                        cpl_id: DeviceID::decode(b.subrange(4, 6)),
                        bc: be16(b[6], b[7]) & 0x1FFF,
                        status,
                        req_id: DeviceID::decode(b.subrange(8, 10)),
                        tag: b[10],
                        addr_low: b[11],
                    },
                ),
            },
        }
    }

    /// What a buffer of any length decodes to: the length is judged first.
    pub open spec fn decode_slice(b: Seq<u8>) -> Result<CplHeader, TlpError> {
        if b.len() < 12 {
            Err(TlpError::TooShort)
        } else if b.len() > 12 {
            Err(TlpError::TooLong)
        } else {
            CplHeader::decode(b)
        }
    }

    /// Decodes a header from its twelve bytes.
    pub fn from_bytes(bytes: [u8; 12]) -> (r: Result<CplHeader, TlpError>)
        ensures
            r == CplHeader::decode(bytes@),
    {
        let hdr = match TlpHeader::try_from(&bytes[0..4]) {
            Ok(h) => h,
            Err(e) => {
                return Err(e);
            },
        };
        let cpl_id: DeviceID = read_u16_be(&bytes[4..6]).into();
        let bc_status = read_u16_be(&bytes[6..8]);
        let bc = bc_status & 0x1FFF;
        proof {
            lemma_status_ranges(bc_status);
        }
        let status = match CompletionStatus::from_u8(((bc_status & 0xE000) >> 13) as u8) {
            Some(s) => s,
            None => {
                return Err(TlpError::InvalidType);
            },
        };
        let req_id: DeviceID = read_u16_be(&bytes[8..10]).into();
        let tag = bytes[10];
        let addr_low = bytes[11];

        Ok(CplHeader { hdr, cpl_id, bc, status, req_id, tag, addr_low })
    }

    /// Encodes the header into its twelve bytes.
    pub fn to_bytes(&self) -> (r: [u8; 12])
        ensures
            r@ == self.wire(),
    {
        let h = self.hdr.to_bytes();
        let c = self.cpl_id.to_bytes();
        let bc_status: u16 = ((self.status.to_u8() as u16) << 13) | self.bc;
        proof {
            lemma_be16_split(bc_status);
        }
        let q = self.req_id.to_bytes();
        let r = [
            h[0],
            h[1],
            h[2],
            h[3],
            c[0],
            c[1],
            (bc_status >> 8) as u8,
            (bc_status & 0xFF) as u8,
            q[0],
            q[1],
            self.tag,
            self.addr_low,
        ];
        assert(r@ =~= self.wire());
        r
    }

    /// A header with every field at its default.
    pub fn new() -> (r: CplHeader)
        ensures
            r == CplHeader::initial(),
            r.wf(),
    {
        CplHeader::default()
    }

    /// The same header with the base header replaced.
    pub fn with_hdr(self, hdr: TlpHeader) -> (r: CplHeader)
        ensures
            r == (CplHeader { hdr, ..self }),
    {
        let mut cpl = self;
        cpl.hdr = hdr;
        cpl
    }

    /// The same header with the completer replaced by what `cpl_id` converts
    /// into.
    pub fn with_cpl_id<T>(self, cpl_id: T) -> (r: CplHeader) where T: Into<DeviceID>
        ensures
            r == (CplHeader { cpl_id: r.cpl_id, ..self }),
            call_ensures(T::into, (cpl_id,), r.cpl_id),
            T::obeys_into_spec() ==> r.cpl_id == cpl_id.into_spec(),
    {
        let cid = cpl_id.into();
        let mut cpl = self;
        cpl.cpl_id = cid;
        cpl
    }

    /// The same header with the byte count replaced, which must be at most
    /// 4095.
    pub fn with_bc(self, bc: u16) -> (r: Result<CplHeader, TlpError>)
        ensures
            bc > 4095 ==> r == Err::<CplHeader, TlpError>(TlpError::TooLong),
            bc <= 4095 ==> r == Ok::<CplHeader, TlpError>(CplHeader { bc, ..self }),
    {
        if bc > 4095 {
            Err(TlpError::TooLong)
        } else {
            let mut cpl = self;
            cpl.bc = bc;
            Ok(cpl)
        }
    }

    /// The same header with the status replaced.
    pub fn with_status(self, status: CompletionStatus) -> (r: CplHeader)
        ensures
            r == (CplHeader { status, ..self }),
    {
        let mut cpl = self;
        cpl.status = status;
        cpl
    }

    /// The same header with the requester replaced by what `req_id` converts
    /// into.
    pub fn with_req_id<T>(self, req_id: T) -> (r: CplHeader) where T: Into<DeviceID>
        ensures
            r == (CplHeader { req_id: r.req_id, ..self }),
            call_ensures(T::into, (req_id,), r.req_id),
            T::obeys_into_spec() ==> r.req_id == req_id.into_spec(),
    {
        let req = req_id.into();
        let mut cpl = self;
        cpl.req_id = req;
        cpl
    }

    /// The same header with the tag replaced.
    pub fn with_tag(self, tag: u8) -> (r: CplHeader)
        ensures
            r == (CplHeader { tag, ..self }),
    {
        let mut cpl = self;
        cpl.tag = tag;
        cpl
    }

    /// The same header with the low address replaced, which must be at most
    /// 127.
    pub fn with_addr(self, addr_low: u8) -> (r: Result<CplHeader, TlpError>)
        ensures
            addr_low > 127 ==> r == Err::<CplHeader, TlpError>(TlpError::TooLong),
            addr_low <= 127 ==> r == Ok::<CplHeader, TlpError>(CplHeader { addr_low, ..self }),
    {
        if addr_low > 127 {
            Err(TlpError::TooLong)
        } else {
            let mut cpl = self;
            cpl.addr_low = addr_low;
            Ok(cpl)
        }
    }

    /// A buffer shorter than twelve bytes is too short and a longer one too
    /// long; one of exactly twelve bytes is judged by its content and never
    /// by its length.
    pub proof fn lemma_length_guard(b: Seq<u8>)
        ensures
            b.len() < 12 ==> CplHeader::decode_slice(b) == Err::<CplHeader, TlpError>(TlpError::TooShort),
            b.len() > 12 ==> CplHeader::decode_slice(b) == Err::<CplHeader, TlpError>(TlpError::TooLong),
            b.len() == 12 ==> CplHeader::decode_slice(b) == CplHeader::decode(b),
            b.len() == 12 ==> CplHeader::decode_slice(b) != Err::<CplHeader, TlpError>(TlpError::TooShort)
                && CplHeader::decode_slice(b) != Err::<CplHeader, TlpError>(TlpError::TooLong),
    {
    }

    /// The status and byte-count word of a well-formed header as a number.
    pub proof fn lemma_bc_status_value(self)
        requires
            self.wf(),
        ensures
            self.bc_status() == self.status.code() * 8192 + self.bc,
    {
        lemma_status_value(self.status.code(), self.bc);
    }

    /// Decoding inverts encoding on well-formed headers, whatever their
    /// status.
    pub proof fn lemma_roundtrip(self)
        requires
            self.wf(),
        ensures
            CplHeader::decode(self.wire()) == Ok::<CplHeader, TlpError>(self),
            CplHeader::decode_slice(self.wire()) == Ok::<CplHeader, TlpError>(self),
    {
        let b = self.wire();
        assert(b.subrange(0, 4) =~= self.hdr.wire());
        assert(b.subrange(4, 6) =~= self.cpl_id.wire());
        assert(b.subrange(8, 10) =~= self.req_id.wire());
        self.hdr.lemma_roundtrip();
        self.cpl_id.lemma_roundtrip();
        self.req_id.lemma_roundtrip();
        lemma_be16_split(self.bc_status());
        lemma_status_unpack(self.status.code(), self.bc);
        assert(be16(b[6], b[7]) == self.bc_status());
    }

    /// Twelve bytes whose status field names no completion status are
    /// rejected as of an invalid type.
    pub proof fn lemma_unmapped_status(b: Seq<u8>)
        requires
            b.len() == 12,
            CompletionStatus::from_code(((be16(b[6], b[7]) & 0xE000) >> 13) as u8) is None,
        ensures
            CplHeader::decode(b) == Err::<CplHeader, TlpError>(TlpError::InvalidType),
            CplHeader::decode_slice(b) == Err::<CplHeader, TlpError>(TlpError::InvalidType),
    {
    }
}

impl Default for CplHeader {
    fn default() -> (r: CplHeader)
        ensures
            r == CplHeader::initial(),
    {
        CplHeader {
            hdr: TlpHeader::default(),
            cpl_id: DeviceID::default(),
            bc: 0,
            status: CompletionStatus::SuccessfulCompletion,
            req_id: DeviceID::default(),
            tag: 0,
            addr_low: 0,
        }
    }
}

impl TryFrom<[u8; 12]> for CplHeader {
    type Error = TlpError;

    fn try_from(value: [u8; 12]) -> (r: Result<CplHeader, TlpError>)
        ensures
            r == CplHeader::decode(value@),
    {
        CplHeader::from_bytes(value)
    }
}

impl vstd::std_specs::convert::TryFromSpecImpl<[u8; 12]> for CplHeader {
    open spec fn obeys_try_from_spec() -> bool {
        true
    }

    open spec fn try_from_spec(value: [u8; 12]) -> Result<CplHeader, TlpError> {
        CplHeader::decode(value@)
    }
}

impl TryFrom<&[u8]> for CplHeader {
    type Error = TlpError;

    fn try_from(value: &[u8]) -> (r: Result<CplHeader, TlpError>)
        ensures
            r == CplHeader::decode_slice(value@),
    {
        if value.len() < 12 {
            Err(TlpError::TooShort)
        } else if value.len() > 12 {
            Err(TlpError::TooLong)
        } else {
            let bytes = [
                value[0],
                value[1],
                value[2],
                value[3],
                value[4],
                value[5],
                value[6],
                value[7],
                value[8],
                value[9],
                value[10],
                value[11],
            ];
            assert(bytes@ =~= value@);
            CplHeader::from_bytes(bytes)
        }
    }
}

impl vstd::std_specs::convert::TryFromSpecImpl<&[u8]> for CplHeader {
    open spec fn obeys_try_from_spec() -> bool {
        true
    }

    open spec fn try_from_spec(value: &[u8]) -> Result<CplHeader, TlpError> {
        CplHeader::decode_slice(value@)
    }
}

} // verus!

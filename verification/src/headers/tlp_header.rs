//! The base header: the first four bytes of every TLP.

use vstd::prelude::*;
use crate::bits::{bit, flag, lemma_attrs1_unpack, lemma_attrs1_value, lemma_attrs2_unpack,
    lemma_attrs2_value, lemma_field_ranges, lemma_fields_value, lemma_length_join,
    lemma_length_split, lemma_length_value};
use crate::{DWORD_LEN, MAX_DATA_LEN};
use crate::endian::be16;
use crate::headers::{AddressType, TlpError, TlpType, TrafficClass};

verus! {

/// The base four-byte TLP header.
#[derive(Clone, Copy, Debug, PartialEq, Eq, Structural)]
pub struct TlpHeader {
    /// Format and type
    pub tlp_type: TlpType,
    /// Traffic class
    pub tc: TrafficClass,
    /// LN read or write
    pub ln: bool,
    /// TLP processing hints presence
    pub th: bool,
    /// TLP digest presence
    pub td: bool,
    /// TLP poison indicator
    pub ep: bool,
    /// No-snoop
    pub ns: bool,
    /// Relaxed ordering
    pub ro: bool,
    /// Id-based ordering
    pub ibo: bool,
    /// Address type
    pub at: AddressType,
    /// Length of payload in dwords, as the raw ten-bit field: 0 stands for 1024
    pub length: u16,
}

impl TlpHeader {
    /// Size of the header on the wire, in bytes.
    pub const LENGTH: usize = 4;

    /// A header is well formed when its length fits the ten-bit field.
    pub open spec fn wf(self) -> bool {
        self.length < 1024
    }

    /// The header that `new` and `default` return.
    pub open spec fn initial() -> TlpHeader {
        TlpHeader {
            tlp_type: TlpType::MRd3,
            tc: TrafficClass::TC0,
            ln: false,
            th: false,
            td: false,
            ep: false,
            ns: false,
            ro: false,
            ibo: false,
            at: AddressType::DefaultUntranslated,
            length: 0,
        }
    }

    /// Byte 1 of the wire form: traffic class, id-based ordering, LN and
    /// processing hints.
    pub open spec fn attrs1(self) -> u8 {
        self.tc.code() << 4 | bit(self.ibo) << 2 | bit(self.ln) << 1 | bit(self.th)
    }

    /// Byte 2 of the wire form: digest, poison, relaxed ordering, no-snoop,
    /// address type and the two upper bits of the length.
    pub open spec fn attrs2(self) -> u8 {
        bit(self.td) << 7 | bit(self.ep) << 6 | bit(self.ro) << 5 | bit(self.ns) << 4
            | self.at.code() << 2 | (((self.length >> 8) & 0x3) as u8)
    }

    /// The four bytes of the header on the wire.
    pub open spec fn wire(self) -> Seq<u8> {
        seq![self.tlp_type.code(), self.attrs1(), self.attrs2(), ((self.length & 0xFF) as u8)]
    }

    /// What four bytes decode to. Only the first byte can be rejected: every
    /// pattern of the other fields is defined.
    pub open spec fn decode(b: Seq<u8>) -> Result<TlpHeader, TlpError>
        recommends
            b.len() == 4,
    {
        match TlpType::from_code(b[0]) {
            None => Err(TlpError::InvalidType),
            Some(tlp_type) => Ok(
                TlpHeader {
                    tlp_type,
                    tc: TrafficClass::from_code((b[1] & 0x70) >> 4).unwrap(),
                    ibo: b[1] & 0x4 > 0,
                    ln: b[1] & 0x2 > 0,
                    th: b[1] & 0x1 > 0,
                    td: b[2] & 0x80 > 0,
                    ep: b[2] & 0x40 > 0,
                    ro: b[2] & 0x20 > 0,
                    ns: b[2] & 0x10 > 0,
                    at: AddressType::from_code((b[2] & 0xC) >> 2).unwrap(),
                    length: be16(b[2] & 0x3, b[3]),
                },
            ),
        }
    }

    /// What a buffer of any length decodes to: the length is judged first.
    pub open spec fn decode_slice(b: Seq<u8>) -> Result<TlpHeader, TlpError> {
        if b.len() < 4 {
            Err(TlpError::TooShort)
        } else if b.len() > 4 {
            Err(TlpError::TooLong)
        } else {
            TlpHeader::decode(b)
        }
    }

    /// What `with_length` returns for a payload of `len` bytes.
    pub open spec fn length_set(self, len: u16) -> Result<TlpHeader, TlpError> {
        if len > MAX_DATA_LEN {
            Err(TlpError::TooLong)
        } else if len % 4 != 0 {
            Err(TlpError::NotAligned)
        } else {
            Ok(
                TlpHeader {
                    length: if len == MAX_DATA_LEN {
                        0u16
                    } else {
                        (len / 4) as u16
                    },
                    ..self
                },
            )
        }
    }

    /// The payload size in bytes that the length field stands for.
    pub open spec fn payload_bytes(self) -> int {
        if self.length == 0 {
            1024 * DWORD_LEN
        } else {
            self.length * DWORD_LEN
        }
    }

    /// A header with every field at its default.
    pub fn new() -> (r: TlpHeader)
        ensures
            r == TlpHeader::initial(),
            r.wf(),
    {
        TlpHeader::default()
    }

    /// The same header with the format and type replaced.
    pub fn with_type(self, tlp_type: TlpType) -> (r: TlpHeader)
        ensures
            r == (TlpHeader { tlp_type, ..self }),
    {
        let mut hdr = self;
        hdr.tlp_type = tlp_type;
        hdr
    }

    /// The same header with the traffic class replaced.
    pub fn with_tc(self, tc: TrafficClass) -> (r: TlpHeader)
        ensures
            r == (TlpHeader { tc, ..self }),
    {
        let mut hdr = self;
        hdr.tc = tc;
        hdr
    }

    /// The same header with the LN flag replaced.
    pub fn with_ln(self, ln: bool) -> (r: TlpHeader)
        ensures
            r == (TlpHeader { ln, ..self }),
    {
        let mut hdr = self;
        hdr.ln = ln;
        hdr
    }

    /// The same header with the processing hints flag replaced.
    pub fn with_th(self, th: bool) -> (r: TlpHeader)
        ensures
            r == (TlpHeader { th, ..self }),
    {
        let mut hdr = self;
        hdr.th = th;
        hdr
    }

    /// The same header with the digest flag replaced.
    pub fn with_td(self, td: bool) -> (r: TlpHeader)
        ensures
            r == (TlpHeader { td, ..self }),
    {
        let mut hdr = self;
        hdr.td = td;
        hdr
    }

    /// The same header with the poison flag replaced.
    pub fn with_ep(self, ep: bool) -> (r: TlpHeader)
        ensures
            r == (TlpHeader { ep, ..self }),
    {
        let mut hdr = self;
        hdr.ep = ep;
        hdr
    }

    /// The same header with the no-snoop flag replaced.
    pub fn with_ns(self, ns: bool) -> (r: TlpHeader)
        ensures
            r == (TlpHeader { ns, ..self }),
    {
        let mut hdr = self;
        hdr.ns = ns;
        hdr
    }

    /// The same header with the relaxed ordering flag replaced.
    pub fn with_ro(self, ro: bool) -> (r: TlpHeader)
        ensures
            r == (TlpHeader { ro, ..self }),
    {
        let mut hdr = self;
        hdr.ro = ro;
        hdr
    }

    /// The same header with the id-based ordering flag replaced.
    pub fn with_ibo(self, ibo: bool) -> (r: TlpHeader)
        ensures
            r == (TlpHeader { ibo, ..self }),
    {
        let mut hdr = self;
        hdr.ibo = ibo;
        hdr
    }

    /// The same header with the address type replaced.
    pub fn with_at(self, at: AddressType) -> (r: TlpHeader)
        ensures
            r == (TlpHeader { at, ..self }),
    {
        let mut hdr = self;
        hdr.at = at;
        hdr
    }

    /// Decodes a header from its four bytes.
    pub fn from_bytes(bytes: [u8; 4]) -> (r: Result<TlpHeader, TlpError>)
        ensures
            r == TlpHeader::decode(bytes@),
            r is Err <==> TlpType::from_code(bytes[0]) is None,
            r is Ok ==> r.unwrap().wf(),
    {
        let tlp_type = match TlpType::from_u8(bytes[0]) {
            Some(t) => t,
            None => {
                return Err(TlpError::InvalidType);
            },
        };
        proof {
            lemma_field_ranges(bytes[1]);
            lemma_field_ranges(bytes[2]);
            lemma_length_join(bytes[2] & 0x3, bytes[3]);
        }
        let tc = TrafficClass::from_u8((bytes[1] & 0x70) >> 4).unwrap();
        let ibo = (bytes[1] & 0x4) > 0;
        let ln = (bytes[1] & 0x2) > 0;
        let th = (bytes[1] & 0x1) > 0;
        let td = (bytes[2] & 0x80) > 0;
        let ep = (bytes[2] & 0x40) > 0;
        let ro = (bytes[2] & 0x20) > 0;
        let ns = (bytes[2] & 0x10) > 0;
        let at = AddressType::from_u8((bytes[2] & 0xC) >> 2).unwrap();
        let length = ((bytes[2] & 0x3) as u16) << 8 | (bytes[3] as u16);

        Ok(TlpHeader { tlp_type, tc, ibo, ln, th, td, ep, ro, ns, at, length })
    }

    /// Accepts a payload size in bytes: at most 4096 and a multiple of four.
    /// The full 4096 bytes are stored as 0.
    pub fn with_length(self, len: u16) -> (r: Result<TlpHeader, TlpError>)
        ensures
            r == self.length_set(len),
            r is Ok ==> r.unwrap().wf(),
    {
        let mut hdr = self;
        if len as usize > MAX_DATA_LEN {
            Err(TlpError::TooLong)
        } else if len % 4 != 0 {
            Err(TlpError::NotAligned)
        } else {
            let dwords: u16 = len / 4;
            hdr.length = if dwords == 1024 {
                0
            } else {
                dwords
            };
            Ok(hdr)
        }
    }

    /// Encodes the header into its four bytes.
    pub fn to_bytes(&self) -> (r: [u8; 4])
        ensures
            r@ == self.wire(),
    {
        let tlp_type = self.tlp_type.to_u8();
        let attrs1 = self.tc.to_u8() << 4 | flag(self.ibo) << 2 | flag(self.ln) << 1 | flag(
            self.th,
        );
        let attrs2 = flag(self.td) << 7 | flag(self.ep) << 6 | flag(self.ro) << 5 | flag(self.ns)
            << 4 | self.at.to_u8() << 2 | (((self.length >> 8) & 0x3) as u8);
        let lower_len = (self.length & 0xFF) as u8;
        let r = [tlp_type, attrs1, attrs2, lower_len];
        assert(r@ =~= self.wire());
        r
    }

    /// The payload size in bytes. It must fit the result, as that of every
    /// well-formed header does.
    pub fn data_len(&self) -> (r: u16)
        requires
            self.payload_bytes() <= u16::MAX,
        ensures
            r == self.payload_bytes(),
            self.wf() ==> 4 <= r <= 4096 && r % 4 == 0,
    {
        let x: u16 = match self.length {
            0 => 1024,
            l => l,
        };
        let dword = DWORD_LEN as u16;
        assert(dword == 4);
        x * dword
    }

    /// A buffer shorter than four bytes is too short and a longer one too
    /// long; one of exactly four bytes is judged by its content and never
    /// by its length.
    pub proof fn lemma_length_guard(b: Seq<u8>)
        ensures
            b.len() < 4 ==> TlpHeader::decode_slice(b) == Err::<TlpHeader, TlpError>(TlpError::TooShort),
            b.len() > 4 ==> TlpHeader::decode_slice(b) == Err::<TlpHeader, TlpError>(TlpError::TooLong),
            b.len() == 4 ==> TlpHeader::decode_slice(b) == TlpHeader::decode(b),
            b.len() == 4 ==> TlpHeader::decode_slice(b) != Err::<TlpHeader, TlpError>(TlpError::TooShort)
                && TlpHeader::decode_slice(b) != Err::<TlpHeader, TlpError>(TlpError::TooLong),
    {
    }

    /// Storing a payload size and reading it back gives the size, except that
    /// a size of 0 reads back as the full 4096 bytes.
    pub proof fn lemma_length_roundtrip(self, len: u16)
        requires
            len <= 4096,
            len % 4 == 0,
        ensures
            self.length_set(len) is Ok,
            self.length_set(len).unwrap().wf(),
            self.length_set(len).unwrap().payload_bytes() == if len == 0 {
                4096int
            } else {
                len as int
            },
    {
    }

    /// The bytes of a well-formed header as numbers: every field weighs as
    /// much as its lowest bit, and the length is split at its eighth bit.
    pub proof fn lemma_wire_values(self)
        requires
            self.wf(),
        ensures
            self.wire().len() == 4,
            self.wire()[0] == self.tlp_type.code(),
            self.wire()[1] == self.tc.code() * 16 + bit(self.ibo) * 4 + bit(self.ln) * 2 + bit(
                self.th,
            ),
            self.wire()[2] == bit(self.td) * 128 + bit(self.ep) * 64 + bit(self.ro) * 32 + bit(
                self.ns,
            ) * 16 + self.at.code() * 4 + self.length / 256,
            self.wire()[3] == self.length % 256,
    {
        let len_hi = ((self.length >> 8) & 0x3) as u8;
        lemma_length_split(self.length);
        lemma_length_value(self.length);
        lemma_attrs1_value(self.tc.code(), bit(self.ibo), bit(self.ln), bit(self.th));
        lemma_attrs2_value(
            bit(self.td),
            bit(self.ep),
            bit(self.ro),
            bit(self.ns),
            self.at.code(),
            len_hi,
        );
    }

    /// The fields of a decoded header as numbers: each is the quotient of its
    /// byte by the weight of its lowest bit, cut to its width.
    pub proof fn lemma_decode_values(b: Seq<u8>)
        requires
            b.len() == 4,
        ensures
            TlpHeader::decode(b) matches Ok(h) ==> {
                &&& h.tlp_type.code() == b[0]
                &&& h.tc.code() == (b[1] / 16) % 8
                &&& h.ibo == ((b[1] / 4) % 2 == 1)
                &&& h.ln == ((b[1] / 2) % 2 == 1)
                &&& h.th == (b[1] % 2 == 1)
                &&& h.td == (b[2] / 128 == 1)
                &&& h.ep == ((b[2] / 64) % 2 == 1)
                &&& h.ro == ((b[2] / 32) % 2 == 1)
                &&& h.ns == ((b[2] / 16) % 2 == 1)
                &&& h.at.code() == (b[2] / 4) % 4
                &&& h.length == (b[2] % 4) * 256 + b[3]
            },
            TlpHeader::decode(b) is Err <==> forall|t: TlpType| t.code() != b[0],
    {
        lemma_fields_value(b[1], b[2], b[3]);
        lemma_field_ranges(b[1]);
        lemma_field_ranges(b[2]);
        if let Some(t) = TlpType::from_code(b[0]) {
            assert(t.code() == b[0]);
        }
    }

    /// Whatever four bytes decode to is well formed.
    pub proof fn lemma_decode_wf(b: Seq<u8>)
        requires
            b.len() == 4,
        ensures
            TlpHeader::decode(b) matches Ok(h) ==> h.wf(),
    {
        lemma_field_ranges(b[2]);
        lemma_length_join(b[2] & 0x3, b[3]);
    }

    /// Decoding inverts encoding on well-formed headers.
    pub proof fn lemma_roundtrip(self)
        requires
            self.wf(),
        ensures
            TlpHeader::decode(self.wire()) == Ok::<TlpHeader, TlpError>(self),
            TlpHeader::decode_slice(self.wire()) == Ok::<TlpHeader, TlpError>(self),
    {
        let len_hi = ((self.length >> 8) & 0x3) as u8;
        TlpType::lemma_code_injective(self.tlp_type, self.tlp_type);
        lemma_length_split(self.length);
        lemma_attrs1_unpack(self.tc.code(), bit(self.ibo), bit(self.ln), bit(self.th));
        lemma_attrs2_unpack(
            bit(self.td),
            bit(self.ep),
            bit(self.ro),
            bit(self.ns),
            self.at.code(),
            len_hi,
        );
    }
}

impl TryFrom<[u8; 4]> for TlpHeader {
    type Error = TlpError;

    fn try_from(value: [u8; 4]) -> (r: Result<TlpHeader, TlpError>)
        ensures
            r == TlpHeader::decode(value@),
    {
        TlpHeader::from_bytes(value)
    }
}

impl vstd::std_specs::convert::TryFromSpecImpl<[u8; 4]> for TlpHeader {
    open spec fn obeys_try_from_spec() -> bool {
        true
    }

    open spec fn try_from_spec(value: [u8; 4]) -> Result<TlpHeader, TlpError> {
        TlpHeader::decode(value@)
    }
}

impl TryFrom<&[u8]> for TlpHeader {
    type Error = TlpError;

    fn try_from(value: &[u8]) -> (r: Result<TlpHeader, TlpError>)
        ensures
            r == TlpHeader::decode_slice(value@),
    {
        if value.len() < 4 {
            Err(TlpError::TooShort)
        } else if value.len() > 4 {
            Err(TlpError::TooLong)
        } else {
            TlpHeader::from_bytes([value[0], value[1], value[2], value[3]])
        }
    }
}

impl vstd::std_specs::convert::TryFromSpecImpl<&[u8]> for TlpHeader {
    open spec fn obeys_try_from_spec() -> bool {
        true
    }

    open spec fn try_from_spec(value: &[u8]) -> Result<TlpHeader, TlpError> {
        TlpHeader::decode_slice(value@)
    }
}

impl From<TlpHeader> for [u8; 4] {
    fn from(hdr: TlpHeader) -> (r: [u8; 4])
        ensures
            r@ == hdr.wire(),
    {
        hdr.to_bytes()
    }
}

impl vstd::std_specs::convert::FromSpecImpl<TlpHeader> for [u8; 4] {
    open spec fn obeys_from_spec() -> bool {
        true
    }

    open spec fn from_spec(hdr: TlpHeader) -> [u8; 4] {
        [hdr.tlp_type.code(), hdr.attrs1(), hdr.attrs2(), ((hdr.length & 0xFF) as u8)]
    }
}

impl Default for TlpHeader {
    fn default() -> (r: TlpHeader)
        ensures
            r == TlpHeader::initial(),
    {
        TlpHeader {
            tlp_type: TlpType::MRd3,
            tc: TrafficClass::TC0,
            ln: false,
            th: false,
            td: false,
            ep: false,
            ns: false,
            ro: false,
            ibo: false,
            at: AddressType::DefaultUntranslated,
            length: 0,
        }
    }
}

} // verus!

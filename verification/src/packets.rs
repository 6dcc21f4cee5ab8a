//! Whole requests built from a header and what follows it.

use vstd::prelude::*;
use crate::address::Address;
use crate::device_id::DeviceID;
use crate::headers::{RequestHeader, TlpError, TlpHeader, TlpType};

verus! {

/// A memory read request: its header and the address it reads from.
#[derive(Clone, Copy, Debug, PartialEq, Eq, Structural)]
pub struct MRd {
    /// The request header
    pub hdr: RequestHeader,
    /// The address to read from
    pub addr: Address,
}

impl MRd {
    /// The header and the address are well formed.
    pub open spec fn wf(self) -> bool {
        self.hdr.wf() && self.addr.wf()
    }

    /// The memory read type that an address calls for: three data words of
    /// header for a 32-bit address, four for a 64-bit one.
    pub open spec fn type_for(addr: Address) -> TlpType {
        if addr is Addr32 {
            TlpType::MRd3
        } else {
            TlpType::MRd4
        }
    }

    /// The request that `default` returns: a read of address 0 with the byte
    /// enables set.
    pub open spec fn initial() -> MRd {
        MRd { hdr: RequestHeader::initial().enabled(), addr: Address::Addr32(0) }
    }

    /// What `new` returns: the address is judged first, then the length.
    pub open spec fn built(req_id: DeviceID, tag: u8, addr: u64, length: u16) -> Result<
        MRd,
        TlpError,
    > {
        match Address::strict(addr) {
            Err(e) => Err(e),
            Ok(a) => match (TlpHeader { tlp_type: MRd::type_for(a), ..TlpHeader::initial() })
                .length_set(length) {
                Err(e) => Err(e),
                Ok(hdr) => Ok(
                    MRd {
                        hdr: (RequestHeader {
                            hdr,
                            req_id,
                            tag,
                            ..RequestHeader::initial()
                        }).enabled(),
                        addr: a,
                    },
                ),
            },
        }
    }

    /// Builds a read of `length` bytes at `addr`. The address must be
    /// aligned to a data word; the length must be a multiple of four and at
    /// most 4096.
    pub fn new(req_id: DeviceID, tag: u8, addr: u64, length: u16) -> (r: Result<MRd, TlpError>)
        ensures
            r == MRd::built(req_id, tag, addr, length),
            r is Ok <==> addr % 4 == 0 && length <= 4096 && length % 4 == 0,
            r is Ok && req_id.wf() ==> r.unwrap().wf(),
    {
        let addr = match Address::try_from(addr) {
            Ok(a) => a,
            Err(e) => {
                return Err(e);
            },
        };
        let tlp_type = if let Address::Addr32(_) = addr {
            TlpType::MRd3
        } else {
            TlpType::MRd4
        };
        let hdr = match TlpHeader::new().with_type(tlp_type).with_length(length) {
            Ok(h) => h,
            Err(e) => {
                return Err(e);
            },
        };
        let mut req = RequestHeader::new().with_hdr(hdr).with_tag(tag).with_byte_enables();
        req.req_id = req_id;
        Ok(MRd { hdr: req, addr })
    }
}

impl Default for MRd {
    fn default() -> (r: MRd)
        ensures
            r == MRd::initial(),
    {
        let mut hdr = RequestHeader::default();
        hdr.set_byte_enables();
        MRd { hdr, addr: Address::default() }
    }
}

} // verus!

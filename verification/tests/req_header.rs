use rust_pcie_tlp::{DeviceID, MRd, Address, RequestHeader, TlpError, TlpHeader, TlpType, TrafficClass};

#[test]
fn req_hdr_default() {
    let req = RequestHeader::new();
    assert_eq!(req, RequestHeader::default());
    assert_eq!(req.hdr, TlpHeader::default());
    assert_eq!(req.req_id, DeviceID::default());
    assert_eq!((req.tag, req.first_be, req.last_be), (0, 0, 0));
    assert_eq!(req.to_bytes(), [0; 8]);
}

#[test]
fn req_hdr_layout() {
    let hdr = TlpHeader::new()
        .with_type(TlpType::MWr4)
        .with_tc(TrafficClass::TC3)
        .with_length(64)
        .unwrap();
    let req = RequestHeader::new()
        .with_hdr(hdr)
        .with_req_id(DeviceID::new(0x12, 6, 4).unwrap())
        .with_tag(0xA5)
        .with_first_be(0x3)
        .unwrap()
        .with_last_be(0xC)
        .unwrap();
    assert_eq!(req.to_bytes(), [0x60, 0x30, 0x00, 0x10, 0x12, 0x34, 0xA5, 0xC3]);
    let bytes: [u8; 8] = req.into();
    assert_eq!(bytes, [0x60, 0x30, 0x00, 0x10, 0x12, 0x34, 0xA5, 0xC3]);
    let back = RequestHeader::from_bytes(bytes).unwrap();
    assert_eq!(back, req);
    assert_eq!(back.req_id, DeviceID { bus: 0x12, device: 6, function: 4 });
    assert_eq!(RequestHeader::try_from(bytes), Ok(req));
    assert_eq!(RequestHeader::try_from(bytes.as_slice()), Ok(req));
}

#[test]
fn req_hdr_with_req_id_from_int() {
    let req = RequestHeader::new().with_req_id(0x1234u16);
    assert_eq!(req.req_id, DeviceID { bus: 0x12, device: 6, function: 4 });
    assert_eq!(req.hdr, TlpHeader::default());
}

/// Roundtrip of header en/decoding
#[test]
fn req_hdr_serde_roundtrip() {
    for tlp_type in [TlpType::IORdT, TlpType::MRd3, TlpType::CfgWr1, TlpType::PASID] {
        for length in [0u16, 1, 2, 1023] {
            for id in [0u16, 0x0A, 0x1234, 0xFFFF] {
                for tag in [0u8, 1, 0x80, 0xFF] {
                    for first_be in 0..16u8 {
                        for last_be in 0..16u8 {
                            let hdr = RequestHeader {
                                hdr: TlpHeader { tlp_type, length, ..TlpHeader::default() },
                                req_id: DeviceID::from(id),
                                tag,
                                first_be,
                                last_be,
                            };
                            let bytes = hdr.to_bytes();
                            assert_eq!(bytes[7], last_be << 4 | first_be);
                            let new_hdr = RequestHeader::from_bytes(bytes);
                            assert!(new_hdr.is_ok());
                            assert_eq!(hdr, new_hdr.unwrap());
                        }
                    }
                }
            }
        }
    }
}

#[test]
fn req_hdr_invalid_type() {
    assert_eq!(
        RequestHeader::from_bytes([0xFF, 0, 0, 0, 0, 0, 0, 0]),
        Err(TlpError::InvalidType)
    );
}

#[test]
fn req_hdr_first_be_too_large() {
    for first_be in 0x10u8..=255 {
        let req = RequestHeader::new().with_first_be(first_be);
        assert!(req.is_err());
        assert_eq!(TlpError::TooLong, req.unwrap_err());
    }
    for first_be in 0..0x10u8 {
        assert_eq!(RequestHeader::new().with_first_be(first_be).unwrap().first_be, first_be);
    }
}

#[test]
fn req_hdr_last_be_too_large() {
    for last_be in 0x10u8..=255 {
        let req = RequestHeader::new().with_last_be(last_be);
        assert!(req.is_err());
        assert_eq!(TlpError::TooLong, req.unwrap_err());
    }
    for last_be in 0..0x10u8 {
        assert_eq!(RequestHeader::new().with_last_be(last_be).unwrap().last_be, last_be);
    }
}

#[test]
fn req_hdr_byte_enables() {
    for (len, last) in [(4u16, 0u8), (8, 0xF), (0, 0xF), (4096, 0xF), (4092, 0xF)] {
        let hdr = TlpHeader::new().with_length(len).unwrap();
        let req = RequestHeader::new().with_hdr(hdr).with_tag(9).with_byte_enables();
        assert_eq!(req.first_be, 0xF);
        assert_eq!(req.last_be, last);
        assert_eq!(req.tag, 9);
        assert_eq!(req.hdr, hdr);
        let mut other = RequestHeader::new().with_hdr(hdr).with_tag(9);
        other.set_byte_enables();
        assert_eq!(other, req);
    }
}

#[test]
fn req_hdr_from_slice_too_short() {
    let v = vec![1, 2, 3, 4, 5, 6, 7];
    let e = RequestHeader::try_from(v.as_slice());
    assert!(e.is_err());
    assert_eq!(TlpError::TooShort, e.unwrap_err());
}

#[test]
fn req_hdr_from_slice_too_long() {
    let v = vec![1, 2, 3, 4, 5, 6, 7, 8, 9];
    let e = RequestHeader::try_from(v.as_slice());
    assert!(e.is_err());
    assert_eq!(TlpError::TooLong, e.unwrap_err());
}

#[test]
fn req_hdr_from_slice_every_length() {
    let buf = [0xFFu8; 17];
    for n in 0..=17 {
        let r = RequestHeader::try_from(&buf[..n]);
        if n < 8 {
            assert_eq!(r, Err(TlpError::TooShort));
        } else if n > 8 {
            assert_eq!(r, Err(TlpError::TooLong));
        } else {
            assert_eq!(r, Err(TlpError::InvalidType));
        }
    }
}

#[test]
fn mrd_new() {
    let id = DeviceID::new(1, 2, 3).unwrap();
    let m = MRd::new(id, 7, 0x1000, 4).unwrap();
    assert_eq!(m.addr, Address::Addr32(0x1000));
    assert_eq!(m.hdr.hdr.tlp_type, TlpType::MRd3);
    assert_eq!(m.hdr.hdr.length, 1);
    assert_eq!(m.hdr.req_id, id);
    assert_eq!(m.hdr.tag, 7);
    assert_eq!((m.hdr.first_be, m.hdr.last_be), (0xF, 0));
    assert_eq!(m.hdr.to_bytes(), [0x00, 0, 0, 1, 0x01, 0x13, 7, 0x0F]);

    let m = MRd::new(id, 8, 0x1_0000_0000, 4096).unwrap();
    assert_eq!(m.addr, Address::Addr64(0x1_0000_0000));
    assert_eq!(m.hdr.hdr.tlp_type, TlpType::MRd4);
    assert_eq!(m.hdr.hdr.length, 0);
    assert_eq!(m.hdr.hdr.data_len(), 4096);
    assert_eq!((m.hdr.first_be, m.hdr.last_be), (0xF, 0xF));
    assert_eq!(
        m.hdr.hdr,
        TlpHeader { tlp_type: TlpType::MRd4, ..TlpHeader::default() }
    );
}

#[test]
fn mrd_new_rejects() {
    let id = DeviceID::default();
    assert_eq!(MRd::new(id, 0, 0x1001, 4), Err(TlpError::NotAligned));
    assert_eq!(MRd::new(id, 0, 0x1000, 6), Err(TlpError::NotAligned));
    assert_eq!(MRd::new(id, 0, 0x1000, 4100), Err(TlpError::TooLong));
    // the address is judged before the length
    assert_eq!(MRd::new(id, 0, 0x1002, 4100), Err(TlpError::NotAligned));
}

#[test]
fn mrd_default() {
    let m = MRd::default();
    assert_eq!(m.addr, Address::Addr32(0));
    assert_eq!(m.hdr.hdr, TlpHeader::default());
    assert_eq!(m.hdr.req_id, DeviceID::default());
    assert_eq!(m.hdr.tag, 0);
    assert_eq!((m.hdr.first_be, m.hdr.last_be), (0xF, 0xF));
}

use rust_pcie_tlp::{
    AddressType, TlpError, TlpFormat, TlpHeader, TlpType, TrafficClass, DWORD_LEN, MAX_DATA_LEN,
    MAX_TLP_BUFFER,
};

const TYPES: [(TlpType, u8); 21] = [
    (TlpType::MRd3, 0x00),
    (TlpType::MRd4, 0x20),
    (TlpType::MRdLk3, 0x01),
    (TlpType::MRdLk4, 0x21),
    (TlpType::MWr3, 0x40),
    (TlpType::MWr4, 0x60),
    (TlpType::IORdT, 0x02),
    (TlpType::IOWrtT, 0x42),
    (TlpType::CfgRd0, 0x04),
    (TlpType::CfgWr0, 0x44),
    (TlpType::CfgRd1, 0x05),
    (TlpType::CfgWr1, 0x45),
    (TlpType::CplE, 0x0A),
    (TlpType::CplD, 0x4A),
    (TlpType::CplLk, 0x0B),
    (TlpType::CplLkD, 0x4B),
    (TlpType::MRIOV, 0x80),
    (TlpType::LocalVendPrefix, 0x8E),
    (TlpType::ExtTPH, 0x90),
    (TlpType::PASID, 0x91),
    (TlpType::EndEndVendPrefix, 0x9E),
];

const CLASSES: [TrafficClass; 8] = [
    TrafficClass::TC0,
    TrafficClass::TC1,
    TrafficClass::TC2,
    TrafficClass::TC3,
    TrafficClass::TC4,
    TrafficClass::TC5,
    TrafficClass::TC6,
    TrafficClass::TC7,
];

const ADDRESS_TYPES: [AddressType; 4] = [
    AddressType::DefaultUntranslated,
    AddressType::TranslationRequest,
    AddressType::Translated,
    AddressType::AddressTypeReserved,
];

#[test]
fn constants() {
    assert_eq!(DWORD_LEN, 4);
    assert_eq!(MAX_DATA_LEN, 4096);
    assert_eq!(MAX_TLP_BUFFER, 16 + 4096);
    assert_eq!(MAX_TLP_BUFFER, 4112);
    assert_eq!(TlpHeader::LENGTH, 4);
}

#[test]
fn tlp_type_codes() {
    for (t, code) in TYPES {
        assert_eq!(t.to_u8(), code);
        assert_eq!(TlpType::from_u8(code), Some(t));
    }
    let mut defined = 0;
    for n in 0..=255u8 {
        match TlpType::from_u8(n) {
            Some(t) => {
                defined += 1;
                assert_eq!(t.to_u8(), n);
            }
            None => assert!(TYPES.iter().all(|(_, code)| *code != n)),
        }
    }
    assert_eq!(defined, 21);
    assert_eq!(TlpType::default(), TlpType::MRd3);
}

#[test]
fn tlp_format_codes() {
    assert_eq!(TlpFormat::NoData3DW.to_u8(), 0b000);
    assert_eq!(TlpFormat::NoData4DW.to_u8(), 0b001);
    assert_eq!(TlpFormat::Data3DW.to_u8(), 0b010);
    assert_eq!(TlpFormat::Data4DW.to_u8(), 0b011);
    assert_eq!(TlpFormat::TlpPrefix.to_u8(), 0b100);
    assert_eq!(TlpType::MWr4.to_u8() >> 5, TlpFormat::Data4DW.to_u8());
    assert_eq!(TlpType::PASID.to_u8() >> 5, TlpFormat::TlpPrefix.to_u8());
}

#[test]
fn traffic_class_codes() {
    for (n, tc) in CLASSES.iter().enumerate() {
        assert_eq!(tc.to_u8() as usize, n);
        assert_eq!(TrafficClass::from_u8(n as u8), Some(*tc));
    }
    for n in 8..=255u8 {
        assert_eq!(TrafficClass::from_u8(n), None);
    }
    assert_eq!(TrafficClass::default(), TrafficClass::TC0);
}

#[test]
fn address_type_codes() {
    for (n, at) in ADDRESS_TYPES.iter().enumerate() {
        assert_eq!(at.to_u8() as usize, n);
        assert_eq!(AddressType::from_u8(n as u8), Some(*at));
    }
    for n in 4..=255u8 {
        assert_eq!(AddressType::from_u8(n), None);
    }
    assert_eq!(AddressType::default(), AddressType::DefaultUntranslated);
}

#[test]
fn tlp_hdr_default() {
    let hdr = TlpHeader::new();
    assert_eq!(hdr, TlpHeader::default());
    assert_eq!(hdr.tlp_type, TlpType::MRd3);
    assert_eq!(hdr.tc, TrafficClass::TC0);
    assert_eq!(hdr.at, AddressType::DefaultUntranslated);
    assert!(!hdr.ln && !hdr.th && !hdr.td && !hdr.ep && !hdr.ns && !hdr.ro && !hdr.ibo);
    assert_eq!(hdr.length, 0);
    assert_eq!(hdr.to_bytes(), [0, 0, 0, 0]);
}

#[test]
fn tlp_hdr_builders() {
    let hdr = TlpHeader::new()
        .with_type(TlpType::CplD)
        .with_tc(TrafficClass::TC5)
        .with_ibo(true)
        .with_ln(false)
        .with_th(true)
        .with_td(true)
        .with_ep(false)
        .with_ro(true)
        .with_ns(false)
        .with_at(AddressType::Translated)
        .with_length(2732)
        .unwrap();
    assert_eq!(
        hdr,
        TlpHeader {
            tlp_type: TlpType::CplD,
            tc: TrafficClass::TC5,
            ln: false,
            th: true,
            td: true,
            ep: false,
            ns: false,
            ro: true,
            ibo: true,
            at: AddressType::Translated,
            length: 0x2AB,
        }
    );
    assert_eq!(hdr.to_bytes(), [0x4A, 0x55, 0xAA, 0xAB]);
    let bytes: [u8; 4] = hdr.into();
    assert_eq!(bytes, [0x4A, 0x55, 0xAA, 0xAB]);
    assert_eq!(TlpHeader::from_bytes([0x4A, 0x55, 0xAA, 0xAB]), Ok(hdr));
    assert_eq!(TlpHeader::try_from([0x4A, 0x55, 0xAA, 0xAB]), Ok(hdr));
}

#[test]
fn tlp_hdr_each_flag() {
    let base = TlpHeader::new();
    assert_eq!(base.with_th(true).to_bytes(), [0, 0x01, 0, 0]);
    assert_eq!(base.with_ln(true).to_bytes(), [0, 0x02, 0, 0]);
    assert_eq!(base.with_ibo(true).to_bytes(), [0, 0x04, 0, 0]);
    assert_eq!(base.with_tc(TrafficClass::TC7).to_bytes(), [0, 0x70, 0, 0]);
    assert_eq!(base.with_td(true).to_bytes(), [0, 0, 0x80, 0]);
    assert_eq!(base.with_ep(true).to_bytes(), [0, 0, 0x40, 0]);
    assert_eq!(base.with_ro(true).to_bytes(), [0, 0, 0x20, 0]);
    assert_eq!(base.with_ns(true).to_bytes(), [0, 0, 0x10, 0]);
    assert_eq!(base.with_at(AddressType::AddressTypeReserved).to_bytes(), [0, 0, 0x0C, 0]);
    assert_eq!(base.with_length(4092).unwrap().to_bytes(), [0, 0, 0x03, 0xFF]);
    assert_eq!(base.with_type(TlpType::EndEndVendPrefix).to_bytes(), [0x9E, 0, 0, 0]);
}

#[test]
fn tlp_hdr_from_bytes_example() {
    let hdr = TlpHeader::from_bytes([0, 1, 2, 3]).unwrap();
    assert_eq!(hdr, TlpHeader { th: true, length: 0x203, ..TlpHeader::default() });
    // the two bits that no field owns are dropped
    assert_eq!(TlpHeader::from_bytes([0, 0x88, 0, 0]), Ok(TlpHeader::default()));
}

/// Roundtrip of header en/decoding, over every header
#[test]
fn tlp_hdr_serde_roundtrip() {
    for (tlp_type, code) in TYPES {
        for tc in CLASSES {
            for at in ADDRESS_TYPES {
                for flags in 0..128u8 {
                    for length in [0u16, 1, 2, 255, 256, 511, 512, 0x2AB, 1022, 1023] {
                        let hdr = TlpHeader {
                            tlp_type,
                            tc,
                            ln: flags & 1 != 0,
                            th: flags & 2 != 0,
                            td: flags & 4 != 0,
                            ep: flags & 8 != 0,
                            ns: flags & 16 != 0,
                            ro: flags & 32 != 0,
                            ibo: flags & 64 != 0,
                            at,
                            length,
                        };
                        let bytes = hdr.to_bytes();
                        assert_eq!(bytes[0], code);
                        let new_hdr = TlpHeader::from_bytes(bytes);
                        assert!(new_hdr.is_ok());
                        assert_eq!(hdr, new_hdr.unwrap());
                    }
                }
            }
        }
    }
}

#[test]
fn tlp_hdr_every_length_roundtrip() {
    for length in 0..1024u16 {
        let hdr = TlpHeader { length, ..TlpHeader::default() };
        assert_eq!(TlpHeader::from_bytes(hdr.to_bytes()), Ok(hdr));
    }
}

#[test]
fn tlp_hdr_invalid_type() {
    for n in 0..=255u8 {
        let r = TlpHeader::from_bytes([n, 0xFF, 0xFF, 0xFF]);
        if TYPES.iter().any(|(_, code)| *code == n) {
            let hdr = r.unwrap();
            assert_eq!(hdr.tc, TrafficClass::TC7);
            assert_eq!(hdr.at, AddressType::AddressTypeReserved);
            assert_eq!(hdr.length, 1023);
        } else {
            assert_eq!(r, Err(TlpError::InvalidType));
        }
    }
}

#[test]
fn tlp_hdr_length_encoding() {
    let hdr = TlpHeader::new().with_length(4096).unwrap();
    assert_eq!(hdr.length, 0);
    assert_eq!(hdr.data_len(), 4096);
    assert_eq!(TlpHeader::new().with_length(4097), Err(TlpError::TooLong));
    assert_eq!(TlpHeader::new().with_length(5), Err(TlpError::NotAligned));
    assert_eq!(TlpHeader::new().with_length(4).unwrap().length, 1);
    assert_eq!(TlpHeader::new().with_length(4).unwrap().data_len(), 4);
    assert_eq!(TlpHeader::new().with_length(4092).unwrap().length, 1023);
    for len in (4..=4096u16).step_by(4) {
        assert_eq!(TlpHeader::new().with_length(len).unwrap().data_len(), len);
    }
    // nothing is stored as nothing, which reads back as the maximum
    assert_eq!(TlpHeader::new().with_length(0).unwrap().data_len(), 4096);
}

/// A length that is too long is rejected as invalid
#[test]
fn tlp_hdr_len_too_long() {
    for i in 4097u16..=u16::MAX {
        let hdr = TlpHeader::default().with_length(i);
        assert!(hdr.is_err());
        assert_eq!(TlpError::TooLong, hdr.unwrap_err());
    }
}

/// A length that is not dword-aligned is rejected as invalid
#[test]
fn tlp_hdr_unaligned() {
    for i in 0u16..=4096 {
        if i % 4 != 0 {
            let hdr = TlpHeader::default().with_length(i);
            assert!(hdr.is_err());
            assert_eq!(TlpError::NotAligned, hdr.unwrap_err());
        }
    }
}

#[test]
fn tlp_hdr_from_slice_too_short() {
    let v = vec![1, 2, 3];
    let e = TlpHeader::try_from(v.as_slice());
    assert!(e.is_err());
    assert_eq!(TlpError::TooShort, e.unwrap_err());
}

#[test]
fn tlp_hdr_from_slice_too_long() {
    let v = vec![1, 2, 3, 4, 5];
    let e = TlpHeader::try_from(v.as_slice());
    assert!(e.is_err());
    assert_eq!(TlpError::TooLong, e.unwrap_err());
}

#[test]
fn tlp_hdr_from_slice_every_length() {
    // the first byte names no type, so only the length can save the buffer
    let buf = [0xFFu8; 9];
    for n in 0..=9 {
        let r = TlpHeader::try_from(&buf[..n]);
        if n < 4 {
            assert_eq!(r, Err(TlpError::TooShort));
        } else if n > 4 {
            assert_eq!(r, Err(TlpError::TooLong));
        } else {
            assert_eq!(r, Err(TlpError::InvalidType));
        }
    }
    let v = vec![0x4Au8, 0x55, 0xAA, 0xAB];
    assert_eq!(TlpHeader::try_from(v.as_slice()), TlpHeader::from_bytes([0x4A, 0x55, 0xAA, 0xAB]));
}

use rust_pcie_tlp::{Address, TlpError};

const SAMPLES_64: [u64; 12] = [
    0,
    4,
    0x1000,
    0xFFFF_FFF8,
    0xFFFF_FFFC,
    0x1_0000_0000,
    0x1_0000_0004,
    0xDEAD_BEEF_0000_0000,
    0x7FFF_FFFF_FFFF_FFFC,
    0x8000_0000_0000_0000,
    0xFFFF_FFFF_FFFF_FFF8,
    0xFFFF_FFFF_FFFF_FFFC,
];

#[test]
fn address_selection() {
    assert_eq!(Address::new(0xFFFF_FFFF), Address::Addr32(0xFFFF_FFFC));
    assert_eq!(Address::new(0x1_0000_0000), Address::Addr64(0x1_0000_0000));
    assert_eq!(Address::new(0x5), Address::Addr32(0x4));
    assert_eq!(Address::new(0x1_0000_0003), Address::Addr64(0x1_0000_0000));
    assert_eq!(Address::new(u64::MAX), Address::Addr64(0xFFFF_FFFF_FFFF_FFFC));
    assert_eq!(Address::new(0), Address::Addr32(0));
    assert_eq!(Address::default(), Address::Addr32(0));
}

#[test]
fn into_addr_32_u8() {
    for addr in 0..=u8::MAX {
        let a = Address::try_from(addr);
        if addr % 4 == 0 {
            assert_eq!(a, Ok(Address::Addr32(addr as u32)));
        } else {
            assert_eq!(a, Err(TlpError::NotAligned));
        }
    }
}

#[test]
fn into_addr_32_u16() {
    for addr in 0..=u16::MAX {
        let a = Address::try_from(addr);
        if addr % 4 == 0 {
            assert_eq!(a, Ok(Address::Addr32(addr as u32)));
        } else {
            assert_eq!(a, Err(TlpError::NotAligned));
        }
    }
}

#[test]
fn into_addr_32_u32() {
    for base in [0u32, 4, 0x1000, 0x8000_0000, 0xFFFF_FFF8, 0xFFFF_FFFC] {
        let a: Address = base.try_into().unwrap();
        assert!(matches!(a, Address::Addr32 { .. }));
        assert_eq!(a, Address::Addr32(base));
    }
}

#[test]
fn into_addr_32_u64() {
    for base in SAMPLES_64 {
        if base <= u32::MAX as u64 {
            let a: Address = base.try_into().unwrap();
            assert_eq!(a, Address::Addr32(base as u32));
        }
    }
}

#[test]
fn into_addr_64_u64() {
    for base in SAMPLES_64 {
        if base > u32::MAX as u64 {
            let a: Address = base.try_into().unwrap();
            assert!(matches!(a, Address::Addr64 { .. }));
            assert_eq!(a, Address::Addr64(base));
        }
    }
}

#[test]
fn into_addr_usize() {
    assert_eq!(Address::try_from(0x1000usize), Ok(Address::Addr32(0x1000)));
    assert_eq!(Address::try_from(0x1001usize), Err(TlpError::NotAligned));
}

#[test]
fn valid_addr_32() {
    for base in [0u32, 4, 0x1000, 0x8000_0000, 0xFFFF_FFFC] {
        assert!(Address::is_valid_addr(base));
    }
}

#[test]
fn invalid_addr_32() {
    for base in [0u32, 4, 0x1000, 0x8000_0000, 0xFFFF_FFFC] {
        for wrong in 1..=3u32 {
            let addr = base | wrong;
            assert!(!Address::is_valid_addr(addr));
            let a: Result<Address, TlpError> = addr.try_into();
            assert!(a.is_err());
            assert_eq!(TlpError::NotAligned, a.unwrap_err());
        }
    }
}

#[test]
fn valid_addr_64() {
    for base in SAMPLES_64 {
        assert!(Address::is_valid_addr(base));
    }
}

#[test]
fn invalid_addr_64() {
    for base in SAMPLES_64 {
        for wrong in 1..=3u64 {
            let addr = base | wrong;
            assert!(!Address::is_valid_addr(addr));
            let a: Result<Address, TlpError> = addr.try_into();
            assert!(a.is_err());
            assert_eq!(TlpError::NotAligned, a.unwrap_err());
            // the lossy constructor clears the low bits instead
            assert_eq!(Address::new(addr), Address::new(base));
        }
    }
}

#[test]
fn valid_addr_narrow() {
    assert!(Address::is_valid_addr(8u8));
    assert!(!Address::is_valid_addr(9u8));
    assert!(Address::is_valid_addr(0xFFFCu16));
    assert!(!Address::is_valid_addr(0xFFFEu16));
}

#[test]
fn aligned_64() {
    for base in SAMPLES_64 {
        assert!(Address::is_aligned(base));
        for wrong in 1..=3u64 {
            assert!(!Address::is_aligned(base | wrong));
        }
    }
}

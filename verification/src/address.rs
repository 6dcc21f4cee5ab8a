//! Memory addresses as requests carry them: 32 or 64 bits wide and aligned
//! to a data word.

use vstd::prelude::*;
use vstd::std_specs::convert::IntoSpec;
use crate::bits::{lemma_low_bits, lemma_low_bits_32};
use crate::headers::TlpError;

verus! {

/// A routable memory address.
#[derive(Clone, Copy, Debug, PartialEq, Eq, Structural)]
pub enum Address {
    /// An address that fits 32 bits.
    Addr32(u32),
    /// An address above the 32-bit range.
    Addr64(u64),
}

impl Address {
    /// The address as a number.
    pub open spec fn value(self) -> int {
        match self {
            Address::Addr32(a) => a as int,
            Address::Addr64(a) => a as int,
        }
    }

    /// The two low-order bits of the address are zero.
    pub open spec fn wf(self) -> bool {
        self.value() % 4 == 0
    }

    /// The address that a raw number stands for: rounded down to a multiple
    /// of four, and 64 bits wide exactly when the raw number exceeds 32 bits.
    pub open spec fn aligned(addr: u64) -> Address {
        if addr > u32::MAX {
            Address::Addr64((addr - addr % 4) as u64)
        } else {
            Address::Addr32((addr - addr % 4) as u32)
        }
    }

    /// What the strict constructors return: the address of an aligned
    /// number, and an error for any other.
    pub open spec fn strict(addr: u64) -> Result<Address, TlpError> {
        if addr % 4 == 0 {
            Ok(Address::aligned(addr))
        } else {
            Err(TlpError::NotAligned)
        }
    }

    /// Builds the address of a raw number, clearing its two low-order bits.
    pub fn new(addr: u64) -> (r: Address)
        ensures
            r == Address::aligned(addr),
            r.value() == addr - addr % 4,
            r.wf(),
            r is Addr32 <==> addr <= u32::MAX,
    {
        if addr > 0xFFFF_FFFF {
            proof {
                lemma_low_bits(addr);
            }
            Address::Addr64(addr & 0xFFFF_FFFF_FFFF_FFFC)
        } else {
            proof {
                lemma_low_bits(addr);
                lemma_low_bits_32(addr as u32);
            }
            let a32 = (addr & 0xFFFF_FFFF) as u32;
            Address::Addr32(a32 & 0xFFFF_FFFC)
        }
    }

    /// Tells whether the number that `addr` converts into is aligned to a
    /// data word.
    pub fn is_valid_addr<T>(addr: T) -> (r: bool) where T: Into<u64>
        ensures
            T::obeys_into_spec() ==> r == (addr.into_spec() % 4 == 0),
            exists|a64: u64| call_ensures(T::into, (addr,), a64) && r == (a64 % 4 == 0),
    {
        let a64: u64 = addr.into();
        Address::is_aligned(a64)
    }

    /// Tells whether a 64-bit number is aligned to a data word: its two
    /// low-order bits are zero.
    pub fn is_aligned(a64: u64) -> (r: bool)
        ensures
            r == (a64 % 4 == 0),
    {
        proof {
            lemma_low_bits(a64);
        }
        a64 & 0x3 == 0
    }

    /// The strict constructor on a 64-bit number.
    fn try_new(v: u64) -> (r: Result<Address, TlpError>)
        ensures
            r == Address::strict(v),
    {
        if Address::is_aligned(v) {
            Ok(Address::new(v))
        } else {
            Err(TlpError::NotAligned)
        }
    }
}

impl Default for Address {
    fn default() -> (r: Address)
        ensures
            r == Address::Addr32(0),
    {
        Address::Addr32(0)
    }
}

impl TryFrom<u8> for Address {
    type Error = TlpError;

    fn try_from(value: u8) -> (r: Result<Address, TlpError>)
        ensures
            r == Address::strict(value as u64),
    {
        Address::try_new(value as u64)
    }
}

impl vstd::std_specs::convert::TryFromSpecImpl<u8> for Address {
    open spec fn obeys_try_from_spec() -> bool {
        true
    }

    open spec fn try_from_spec(value: u8) -> Result<Address, TlpError> {
        Address::strict(value as u64)
    }
}

impl TryFrom<u16> for Address {
    type Error = TlpError;

    fn try_from(value: u16) -> (r: Result<Address, TlpError>)
        ensures
            r == Address::strict(value as u64),
    {
        Address::try_new(value as u64)
    }
}

impl vstd::std_specs::convert::TryFromSpecImpl<u16> for Address {
    open spec fn obeys_try_from_spec() -> bool {
        true
    }

    open spec fn try_from_spec(value: u16) -> Result<Address, TlpError> {
        Address::strict(value as u64)
    }
}

impl TryFrom<u32> for Address {
    type Error = TlpError;

    fn try_from(value: u32) -> (r: Result<Address, TlpError>)
        ensures
            r == Address::strict(value as u64),
    {
        Address::try_new(value as u64)
    }
}

impl vstd::std_specs::convert::TryFromSpecImpl<u32> for Address {
    open spec fn obeys_try_from_spec() -> bool {
        true
    }

    open spec fn try_from_spec(value: u32) -> Result<Address, TlpError> {
        Address::strict(value as u64)
    }
}

impl TryFrom<u64> for Address {
    type Error = TlpError;

    fn try_from(value: u64) -> (r: Result<Address, TlpError>)
        ensures
            r == Address::strict(value as u64),
    {
        Address::try_new(value)
    }
}

impl vstd::std_specs::convert::TryFromSpecImpl<u64> for Address {
    open spec fn obeys_try_from_spec() -> bool {
        true
    }

    open spec fn try_from_spec(value: u64) -> Result<Address, TlpError> {
        Address::strict(value)
    }
}

impl TryFrom<usize> for Address {
    type Error = TlpError;

    fn try_from(value: usize) -> (r: Result<Address, TlpError>)
        ensures
            r == Address::strict(value as u64),
    {
        Address::try_new(value as u64)
    }
}

impl vstd::std_specs::convert::TryFromSpecImpl<usize> for Address {
    open spec fn obeys_try_from_spec() -> bool {
        true
    }

    open spec fn try_from_spec(value: usize) -> Result<Address, TlpError> {
        Address::strict(value as u64)
    }
}

} // verus!

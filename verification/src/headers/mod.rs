//! The enumerations shared by all header kinds, and the error they report.

use vstd::prelude::*;

pub mod cpl_header;
pub mod req_header;
pub mod tlp_header;

pub use cpl_header::CplHeader;
pub use req_header::RequestHeader;
pub use tlp_header::TlpHeader;

verus! {

/// Why a header could not be built or decoded.
#[derive(Debug, PartialEq, Eq, Structural)]
pub enum TlpError {
    /// A byte pattern names no variant of a closed enumeration.
    InvalidType,
    /// A byte count or an address is not a multiple of four.
    NotAligned,
    /// A buffer is longer than the structure, or a value wider than its field.
    TooLong,
    /// A buffer is shorter than the structure.
    TooShort,
}

/// TLP header formats: the upper three bits of the first header byte.
#[derive(Clone, Copy, Debug, PartialEq, Eq, Structural)]
pub enum TlpFormat {
    /// 3 data word header with no payload
    NoData3DW,
    /// 4 data word header with no payload
    NoData4DW,
    /// 3 data word header with payload
    Data3DW,
    /// 4 data word header with payload
    Data4DW,
    /// TLP prefix
    TlpPrefix,
}

impl TlpFormat {
    /// The three-bit wire value of the format.
    pub open spec fn code(self) -> u8 {
        match self {
            TlpFormat::NoData3DW => 0b000,
            TlpFormat::NoData4DW => 0b001,
            TlpFormat::Data3DW => 0b010,
            TlpFormat::Data4DW => 0b011,
            TlpFormat::TlpPrefix => 0b100,
        }
    }

    /// Returns the three-bit wire value of the format.
    pub fn to_u8(self) -> (r: u8)
        ensures
            r == self.code(),
    {
        match self {
            TlpFormat::NoData3DW => 0b000,
            TlpFormat::NoData4DW => 0b001,
            TlpFormat::Data3DW => 0b010,
            TlpFormat::Data4DW => 0b011,
            TlpFormat::TlpPrefix => 0b100,
        }
    }
}

/// Address translation state of a request: a two-bit field in which every
/// pattern is defined.
#[derive(Clone, Copy, Debug, PartialEq, Eq, Structural)]
pub enum AddressType {
    DefaultUntranslated,
    TranslationRequest,
    Translated,
    AddressTypeReserved,
}

impl AddressType {
    /// The two-bit wire value.
    pub open spec fn code(self) -> u8 {
        match self {
            AddressType::DefaultUntranslated => 0b00,
            AddressType::TranslationRequest => 0b01,
            AddressType::Translated => 0b10,
            AddressType::AddressTypeReserved => 0b11,
        }
    }

    /// The address type with wire value `n`, if there is one.
    pub open spec fn from_code(n: u8) -> Option<AddressType> {
        if n == 0b00 {
            Some(AddressType::DefaultUntranslated)
        } else if n == 0b01 {
            Some(AddressType::TranslationRequest)
        } else if n == 0b10 {
            Some(AddressType::Translated)
        } else if n == 0b11 {
            Some(AddressType::AddressTypeReserved)
        } else {
            None
        }
    }

    /// Returns the two-bit wire value.
    pub fn to_u8(self) -> (r: u8)
        ensures
            r == self.code(),
            r <= 3,
    {
        match self {
            AddressType::DefaultUntranslated => 0b00,
            AddressType::TranslationRequest => 0b01,
            AddressType::Translated => 0b10,
            AddressType::AddressTypeReserved => 0b11,
        }
    }

    /// Looks up the address type with wire value `n`. Every value below four
    /// is defined.
    pub fn from_u8(n: u8) -> (r: Option<AddressType>)
        ensures
            r == AddressType::from_code(n),
            r is Some <==> n <= 3,
    {
        match n {
            0b00 => Some(AddressType::DefaultUntranslated),
            0b01 => Some(AddressType::TranslationRequest),
            0b10 => Some(AddressType::Translated),
            0b11 => Some(AddressType::AddressTypeReserved),
            _ => None,
        }
    }
}

impl Default for AddressType {
    fn default() -> (r: AddressType)
        ensures
            r == AddressType::DefaultUntranslated,
    {
        AddressType::DefaultUntranslated
    }
}

/// Traffic class: a three-bit quality-of-service tag in which every pattern
/// is defined.
#[derive(Clone, Copy, Debug, PartialEq, Eq, Structural)]
pub enum TrafficClass {
    TC0,
    TC1,
    TC2,
    TC3,
    TC4,
    TC5,
    TC6,
    TC7,
}

impl TrafficClass {
    /// The three-bit wire value.
    pub open spec fn code(self) -> u8 {
        match self {
            TrafficClass::TC0 => 0,
            TrafficClass::TC1 => 1,
            TrafficClass::TC2 => 2,
            TrafficClass::TC3 => 3,
            TrafficClass::TC4 => 4,
            TrafficClass::TC5 => 5,
            TrafficClass::TC6 => 6,
            TrafficClass::TC7 => 7,
        }
    }

    /// The traffic class with wire value `n`, if there is one.
    pub open spec fn from_code(n: u8) -> Option<TrafficClass> {
        if n == 0 {
            Some(TrafficClass::TC0)
        } else if n == 1 {
            Some(TrafficClass::TC1)
        } else if n == 2 {
            Some(TrafficClass::TC2)
        } else if n == 3 {
            Some(TrafficClass::TC3)
        } else if n == 4 {
            Some(TrafficClass::TC4)
        } else if n == 5 {
            Some(TrafficClass::TC5)
        } else if n == 6 {
            Some(TrafficClass::TC6)
        } else if n == 7 {
            Some(TrafficClass::TC7)
        } else {
            None
        }
    }

    /// Returns the three-bit wire value.
    pub fn to_u8(self) -> (r: u8)
        ensures
            r == self.code(),
            r <= 7,
    {
        match self {
            TrafficClass::TC0 => 0,
            TrafficClass::TC1 => 1,
            TrafficClass::TC2 => 2,
            TrafficClass::TC3 => 3,
            TrafficClass::TC4 => 4,
            TrafficClass::TC5 => 5,
            TrafficClass::TC6 => 6,
            TrafficClass::TC7 => 7,
        }
    }

    /// Looks up the traffic class with wire value `n`. Every value below
    /// eight is defined.
    pub fn from_u8(n: u8) -> (r: Option<TrafficClass>)
        ensures
            r == TrafficClass::from_code(n),
            r is Some <==> n <= 7,
    {
        match n {
            0 => Some(TrafficClass::TC0),
            1 => Some(TrafficClass::TC1),
            2 => Some(TrafficClass::TC2),
            3 => Some(TrafficClass::TC3),
            4 => Some(TrafficClass::TC4),
            5 => Some(TrafficClass::TC5),
            6 => Some(TrafficClass::TC6),
            7 => Some(TrafficClass::TC7),
            _ => None,
        }
    }
}

impl Default for TrafficClass {
    fn default() -> (r: TrafficClass)
        ensures
            r == TrafficClass::TC0,
    {
        TrafficClass::TC0
    }
}

/// Completion status: a three-bit field of which four patterns are defined.
#[derive(Clone, Copy, Debug, PartialEq, Eq, Structural)]
pub enum CompletionStatus {
    SuccessfulCompletion,
    UnsupportedRequest,
    ConfigurationRequestRetry,
    CompleterAbort,
}

impl CompletionStatus {
    /// The three-bit wire value.
    pub open spec fn code(self) -> u8 {
        match self {
            CompletionStatus::SuccessfulCompletion => 0b000,
            CompletionStatus::UnsupportedRequest => 0b001,
            CompletionStatus::ConfigurationRequestRetry => 0b010,
            CompletionStatus::CompleterAbort => 0b100,
        }
    }

    /// The completion status with wire value `n`, if there is one.
    pub open spec fn from_code(n: u8) -> Option<CompletionStatus> {
        if n == 0b000 {
            Some(CompletionStatus::SuccessfulCompletion)
        } else if n == 0b001 {
            Some(CompletionStatus::UnsupportedRequest)
        } else if n == 0b010 {
            Some(CompletionStatus::ConfigurationRequestRetry)
        } else if n == 0b100 {
            Some(CompletionStatus::CompleterAbort)
        } else {
            None
        }
    }

    /// Returns the three-bit wire value.
    pub fn to_u8(self) -> (r: u8)
        ensures
            r == self.code(),
            r <= 4,
    {
        match self {
            CompletionStatus::SuccessfulCompletion => 0b000,
            CompletionStatus::UnsupportedRequest => 0b001,
            CompletionStatus::ConfigurationRequestRetry => 0b010,
            CompletionStatus::CompleterAbort => 0b100,
        }
    }

    /// Looks up the completion status with wire value `n`.
    pub fn from_u8(n: u8) -> (r: Option<CompletionStatus>)
        ensures
            r == CompletionStatus::from_code(n),
    {
        match n {
            0b000 => Some(CompletionStatus::SuccessfulCompletion),
            0b001 => Some(CompletionStatus::UnsupportedRequest),
            0b010 => Some(CompletionStatus::ConfigurationRequestRetry),
            0b100 => Some(CompletionStatus::CompleterAbort),
            _ => None,
        }
    }
}

impl Default for CompletionStatus {
    fn default() -> (r: CompletionStatus)
        ensures
            r == CompletionStatus::SuccessfulCompletion,
    {
        CompletionStatus::SuccessfulCompletion
    }
}

/// The defined values of the first header byte: format and type together.
#[derive(Clone, Copy, Debug, PartialEq, Eq, Structural)]
pub enum TlpType {
    /// Memory read request, 3 data words
    MRd3,
    /// Memory read request, 4 data words
    MRd4,
    /// Memory read request-locked, 3 data words
    MRdLk3,
    /// Memory read request-locked, 4 data words
    MRdLk4,
    /// Memory write request, 3 data words
    MWr3,
    /// Memory write request, 4 data words
    MWr4,
    /// I/O read request
    IORdT,
    /// I/O write request
    IOWrtT,
    /// Configuration read type 0
    CfgRd0,
    /// Configuration write type 0
    CfgWr0,
    /// Configuration read type 1
    CfgRd1,
    /// Configuration write type 1
    CfgWr1,
    /// Completion without data
    CplE,
    /// Completion with data
    CplD,
    /// Completion without data for locked memory read
    CplLk,
    /// Completion with data for locked memory read
    CplLkD,
    /// Multi-root I/O virtualization and sharing
    MRIOV,
    /// Local TLP prefix with vendor subfield
    LocalVendPrefix,
    /// Extended TLP
    ExtTPH,
    /// Process address space id
    PASID,
    /// End-to-end TLP with vendor subfield
    EndEndVendPrefix,
}

impl TlpType {
    /// The header format that the type is sent with.
    pub open spec fn format(self) -> TlpFormat {
        match self {
            TlpType::MRd3 | TlpType::MRdLk3 | TlpType::IORdT | TlpType::CfgRd0 | TlpType::CfgRd1
            | TlpType::CplE | TlpType::CplLk => TlpFormat::NoData3DW,
            TlpType::MRd4 | TlpType::MRdLk4 => TlpFormat::NoData4DW,
            TlpType::MWr3 | TlpType::IOWrtT | TlpType::CfgWr0 | TlpType::CfgWr1 | TlpType::CplD
            | TlpType::CplLkD => TlpFormat::Data3DW,
            TlpType::MWr4 => TlpFormat::Data4DW,
            TlpType::MRIOV | TlpType::LocalVendPrefix | TlpType::ExtTPH | TlpType::PASID
            | TlpType::EndEndVendPrefix => TlpFormat::TlpPrefix,
        }
    }

    /// The five type bits below the format.
    pub open spec fn kind(self) -> u8 {
        match self {
            TlpType::MRd3 | TlpType::MRd4 | TlpType::MWr3 | TlpType::MWr4 | TlpType::MRIOV => 0b00000,
            TlpType::MRdLk3 | TlpType::MRdLk4 => 0b00001,
            TlpType::IORdT | TlpType::IOWrtT => 0b00010,
            TlpType::CfgRd0 | TlpType::CfgWr0 => 0b00100,
            TlpType::CfgRd1 | TlpType::CfgWr1 => 0b00101,
            TlpType::CplE | TlpType::CplD => 0b01010,
            TlpType::CplLk | TlpType::CplLkD => 0b01011,
            TlpType::LocalVendPrefix => 0b01110,
            TlpType::ExtTPH => 0b10000,
            TlpType::PASID => 0b10001,
            TlpType::EndEndVendPrefix => 0b11110,
        }
    }

    /// The wire value: the format in the upper three bits, the type bits in
    /// the lower five.
    pub open spec fn code(self) -> u8 {
        (self.format().code() * 32 + self.kind()) as u8
    }

    /// The type with wire value `n`, if there is one.
    pub open spec fn from_code(n: u8) -> Option<TlpType> {
        if exists|t: TlpType| t.code() == n {
            Some(choose|t: TlpType| t.code() == n)
        } else {
            None
        }
    }

    /// No two types share a wire value, so `from_code` inverts `code`.
    pub proof fn lemma_code_injective(a: TlpType, b: TlpType)
        requires
            a.code() == b.code(),
        ensures
            a == b,
            TlpType::from_code(a.code()) == Some(a),
    {
        let t = choose|t: TlpType| t.code() == a.code();
        assert(t.code() == a.code());
    }

    /// Returns the wire value.
    pub fn to_u8(self) -> (r: u8)
        ensures
            r == self.code(),
    {
        match self {
            TlpType::MRd3 => 0x00,
            TlpType::MRd4 => 0x20,
            TlpType::MRdLk3 => 0x01,
            TlpType::MRdLk4 => 0x21,
            TlpType::MWr3 => 0x40,
            TlpType::MWr4 => 0x60,
            TlpType::IORdT => 0x02,
            TlpType::IOWrtT => 0x42,
            TlpType::CfgRd0 => 0x04,
            TlpType::CfgWr0 => 0x44,
            TlpType::CfgRd1 => 0x05,
            TlpType::CfgWr1 => 0x45,
            TlpType::CplE => 0x0A,
            TlpType::CplD => 0x4A,
            TlpType::CplLk => 0x0B,
            TlpType::CplLkD => 0x4B,
            TlpType::MRIOV => 0x80,
            TlpType::LocalVendPrefix => 0x8E,
            TlpType::ExtTPH => 0x90,
            TlpType::PASID => 0x91,
            TlpType::EndEndVendPrefix => 0x9E,
        }
    }

    /// Looks up the type with wire value `n`.
    pub fn from_u8(n: u8) -> (r: Option<TlpType>)
        ensures
            r == TlpType::from_code(n),
            match r {
                Some(t) => t.code() == n,
                None => forall|t: TlpType| t.code() != n,
            },
    {
        let r = match n {
            0x00 => Some(TlpType::MRd3),
            0x20 => Some(TlpType::MRd4),
            0x01 => Some(TlpType::MRdLk3),
            0x21 => Some(TlpType::MRdLk4),
            0x40 => Some(TlpType::MWr3),
            0x60 => Some(TlpType::MWr4),
            0x02 => Some(TlpType::IORdT),
            0x42 => Some(TlpType::IOWrtT),
            0x04 => Some(TlpType::CfgRd0),
            0x44 => Some(TlpType::CfgWr0),
            0x05 => Some(TlpType::CfgRd1),
            0x45 => Some(TlpType::CfgWr1),
            0x0A => Some(TlpType::CplE),
            0x4A => Some(TlpType::CplD),
            0x0B => Some(TlpType::CplLk),
            0x4B => Some(TlpType::CplLkD),
            0x80 => Some(TlpType::MRIOV),
            0x8E => Some(TlpType::LocalVendPrefix),
            0x90 => Some(TlpType::ExtTPH),
            0x91 => Some(TlpType::PASID),
            0x9E => Some(TlpType::EndEndVendPrefix),
            _ => None,
        };
        proof {
            if let Some(t) = r {
                TlpType::lemma_code_injective(t, t);
            }
        }
        r
    }
}

impl Default for TlpType {
    fn default() -> (r: TlpType)
        ensures
            r == TlpType::MRd3,
    {
        TlpType::MRd3
    }
}

} // verus!

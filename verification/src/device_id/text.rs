//! The textual form of a device id, `BB:DD.F`: bus and device as two
//! hexadecimal digits each, the function as one.

use vstd::prelude::*;
use core::num::ParseIntError;
use core::str::FromStr;
use crate::device_id::{DeviceID, DeviceIDError};

verus! {

/// The upper-case hexadecimal digit for a value below 16.
pub open spec fn upper_hex(n: int) -> char {
    if n == 0 {
        '0'
    } else if n == 1 {
        '1'
    } else if n == 2 {
        '2'
    } else if n == 3 {
        '3'
    } else if n == 4 {
        '4'
    } else if n == 5 {
        '5'
    } else if n == 6 {
        '6'
    } else if n == 7 {
        '7'
    } else if n == 8 {
        '8'
    } else if n == 9 {
        '9'
    } else if n == 10 {
        'A'
    } else if n == 11 {
        'B'
    } else if n == 12 {
        'C'
    } else if n == 13 {
        'D'
    } else if n == 14 {
        'E'
    } else {
        'F'
    }
}

/// A byte as exactly two upper-case hexadecimal digits.
pub open spec fn hex_pair(n: u8) -> Seq<char> {
    seq![upper_hex(n as int / 16), upper_hex(n as int % 16)]
}

/// A byte as upper-case hexadecimal digits without padding: one digit below
/// 16, two from there on.
pub open spec fn hex_short(n: u8) -> Seq<char> {
    if n < 16 {
        seq![upper_hex(n as int)]
    } else {
        hex_pair(n)
    }
}

/// The value of a hexadecimal digit of either case.
pub open spec fn hex_digit(c: char) -> Option<nat> {
    let n = c as nat;
    if 0x30 <= n <= 0x39 {
        Some((n - 0x30) as nat)
    } else if 0x41 <= n <= 0x46 {
        Some((n - 0x41 + 10) as nat)
    } else if 0x61 <= n <= 0x66 {
        Some((n - 0x61 + 10) as nat)
    } else {
        None
    }
}

/// The value of a run of hexadecimal digits, the first being the most
/// significant; `None` where a character is no such digit.
pub open spec fn hex_number(s: Seq<char>) -> Option<nat>
    decreases s.len(),
{
    if s.len() == 0 {
        Some(0)
    } else {
        match (hex_number(s.drop_last()), hex_digit(s.last())) {
            (Some(upper), Some(lowest)) => Some(upper * 16 + lowest),
            _ => None,
        }
    }
}

/// The byte that a text stands for in base 16: an optional plus sign, then at
/// least one hexadecimal digit, the value being at most 255.
pub open spec fn hex_u8_text(s: Seq<char>) -> Option<u8> {
    let digits = if s.len() > 0 && s[0] == '+' {
        s.subrange(1, s.len() as int)
    } else {
        s
    };
    match hex_number(digits) {
        Some(v) => if digits.len() > 0 && v <= 255 {
            Some(v as u8)
        } else {
            None
        },
        None => None,
    }
}

/// The error that `u8::from_str_radix` with radix 16 reports for a text that
/// spells no byte. It depends on the text alone.
pub uninterp spec fn hex_u8_error(s: Seq<char>) -> ParseIntError;

/// What parsing a text as a byte in base 16 gives: the byte it spells, or the
/// error reported for it.
pub open spec fn hex_u8_parse(s: Seq<char>) -> Result<u8, ParseIntError> {
    match hex_u8_text(s) {
        Some(v) => Ok(v),
        None => Err(hex_u8_error(s)),
    }
}

/// `u8::from_str_radix` with radix 16. The text may start with a plus sign
/// and must then consist of hexadecimal digits of either case, at least one;
/// it is `Ok` with the number they spell where that fits a byte, and an error
/// in every other case. Of the error only this is claimed, that the same text
/// always gives the same one.
#[verifier::external_body]
fn parse_hex_u8(s: &str) -> (r: Result<u8, ParseIntError>)
    ensures
        match r {
            Ok(v) => hex_u8_text(s@) == Some(v),
            Err(e) => hex_u8_text(s@) is None && e == hex_u8_error(s@),
        },
{
    u8::from_str_radix(s, 16)
}

/// What one number of an id parses to. It is written in hexadecimal digits
/// alone: a text that starts with a plus sign is no such number and gets the
/// error of a sign that stands alone. Every other text is parsed as a byte
/// in base 16.
pub open spec fn hex_field(s: Seq<char>) -> Result<u8, ParseIntError> {
    if s.len() > 0 && s[0] == '+' {
        Err(hex_u8_error(seq!['+']))
    } else {
        hex_u8_parse(s)
    }
}

/// Parses one number of an id, refusing a sign in front of it.
fn parse_field(s: &str) -> (r: Result<u8, ParseIntError>)
    ensures
        r == hex_field(s@),
{
    if s.unicode_len() > 0 && s.get_char(0) == '+' {
        let sign = "+";
        proof {
            reveal_strlit("+");
            assert(sign@ =~= seq!['+']);
            assert(sign@.subrange(1, 1) =~= Seq::<char>::empty());
            assert(hex_u8_text(sign@) is None);
        }
        parse_hex_u8(sign)
    } else {
        parse_hex_u8(s)
    }
}

/// One upper-case hexadecimal digit as text.
fn upper_hex_str(n: u8) -> (r: &'static str)
    requires
        n < 16,
    ensures
        r@ == seq![upper_hex(n as int)],
{
    let digits = "0123456789ABCDEF";
    proof {
        reveal_strlit("0123456789ABCDEF");
    }
    let r = digits.substring_char(n as usize, n as usize + 1);
    assert(r@ =~= seq![upper_hex(n as int)]);
    r
}

impl DeviceID {
    /// The text of the id: `BB:DD.F` for a well-formed one.
    pub open spec fn text(self) -> Seq<char> {
        hex_pair(self.bus) + seq![':'] + hex_pair(self.device) + seq!['.'] + hex_short(
            self.function,
        )
    }

    /// A text has the shape of an id: seven characters with the two
    /// separators in place.
    pub open spec fn shaped(s: Seq<char>) -> bool {
        s.len() == 7 && s[2] == ':' && s[5] == '.'
    }

    /// What a text parses to. The length is judged first, then the
    /// separators, then bus, device and function in turn, each of which must
    /// be hexadecimal digits alone, the first failure being the one
    /// reported, and last the ranges of device and function.
    pub open spec fn from_text(s: Seq<char>) -> Result<DeviceID, DeviceIDError> {
        if s.len() != 7 {
            Err(DeviceIDError::IncorrectStrLen)
        } else if !DeviceID::shaped(s) {
            Err(DeviceIDError::InvalidFormat)
        } else {
            match hex_field(s.subrange(0, 2)) {
                Err(e) => Err(DeviceIDError::IntError(e)),
                Ok(bus) => match hex_field(s.subrange(3, 5)) {
                    Err(e) => Err(DeviceIDError::IntError(e)),
                    Ok(device) => match hex_field(s.subrange(6, 7)) {
                        Err(e) => Err(DeviceIDError::IntError(e)),
                        Ok(function) => DeviceID::checked(bus, device, function),
                    },
                },
            }
        }
    }

    /// The five characters around the separators are hexadecimal digits.
    pub open spec fn digits_only(s: Seq<char>) -> bool
        recommends
            s.len() == 7,
    {
        &&& hex_digit(s[0]) is Some
        &&& hex_digit(s[1]) is Some
        &&& hex_digit(s[3]) is Some
        &&& hex_digit(s[4]) is Some
        &&& hex_digit(s[6]) is Some
    }

    /// Renders the id as text, in upper-case hexadecimal.
    pub fn to_string(&self) -> (r: String)
        ensures
            r@ == self.text(),
            self.wf() ==> r@.len() == 7,
    {
        let mut out = String::new();
        out.append(upper_hex_str(self.bus / 16));
        out.append(upper_hex_str(self.bus % 16));
        out.append(":");
        out.append(upper_hex_str(self.device / 16));
        out.append(upper_hex_str(self.device % 16));
        out.append(".");
        if self.function >= 16 {
            out.append(upper_hex_str(self.function / 16));
        }
        out.append(upper_hex_str(self.function % 16));
        proof {
            reveal_strlit(":");
            reveal_strlit(".");
            assert(out@ =~= self.text());
        }
        out
    }

    /// Parses the text of an id. The length is judged first, then the
    /// separators, then the three numbers in turn, which must be hexadecimal
    /// digits alone, then their ranges.
    pub fn from_str(s: &str) -> (r: Result<DeviceID, DeviceIDError>)
        ensures
            r == DeviceID::from_text(s@),
            r matches Ok(id) ==> id.wf(),
    {
        if s.unicode_len() != 7 {
            return Err(DeviceIDError::IncorrectStrLen);
        }
        if s.get_char(2) != ':' || s.get_char(5) != '.' {
            return Err(DeviceIDError::InvalidFormat);
        }
        let bus = match parse_field(s.substring_char(0, 2)) {
            Ok(v) => v,
            Err(e) => {
                return Err(DeviceIDError::from(e));
            },
        };
        let device = match parse_field(s.substring_char(3, 5)) {
            Ok(v) => v,
            Err(e) => {
                return Err(DeviceIDError::from(e));
            },
        };
        let function = match parse_field(s.substring_char(6, 7)) {
            Ok(v) => v,
            Err(e) => {
                return Err(DeviceIDError::from(e));
            },
        };
        DeviceID::new(bus, device, function)
    }

    /// A shaped text parses as far as its numbers go exactly when it is made
    /// of hexadecimal digits alone; sign, blank or any other character in a
    /// number is an error. The numbers are then what the digits spell, and
    /// only their ranges are left to judge.
    pub proof fn lemma_text_digits(s: Seq<char>)
        requires
            DeviceID::shaped(s),
        ensures
            DeviceID::digits_only(s) ==> DeviceID::from_text(s) == DeviceID::checked(
                (hex_digit(s[0]).unwrap() * 16 + hex_digit(s[1]).unwrap()) as u8,
                (hex_digit(s[3]).unwrap() * 16 + hex_digit(s[4]).unwrap()) as u8,
                hex_digit(s[6]).unwrap() as u8,
            ),
            !DeviceID::digits_only(s) ==> DeviceID::from_text(s) matches Err(
                DeviceIDError::IntError(_),
            ),
    {
        lemma_hex_field_digits(s.subrange(0, 2));
        lemma_hex_field_digits(s.subrange(3, 5));
        lemma_hex_field_digits(s.subrange(6, 7));
    }

    /// Parsing inverts rendering on well-formed ids.
    pub proof fn lemma_text_roundtrip(self)
        requires
            self.wf(),
        ensures
            DeviceID::from_text(self.text()) == Ok::<DeviceID, DeviceIDError>(self),
    {
        let t = self.text();
        assert(t.subrange(0, 2) =~= hex_pair(self.bus));
        assert(t.subrange(3, 5) =~= hex_pair(self.device));
        assert(t.subrange(6, 7) =~= seq![upper_hex(self.function as int)]);
        lemma_hex_pair_value(self.bus);
        lemma_hex_pair_value(self.device);
        lemma_hex_pair_value(self.function);
    }
}

/// A number of one or two characters parses exactly when each of them is a
/// hexadecimal digit, and then to the value that they spell.
pub proof fn lemma_hex_field_digits(f: Seq<char>)
    requires
        1 <= f.len() <= 2,
    ensures
        hex_digit('+') is None,
        f.len() == 1 ==> ((hex_field(f) is Ok) <==> (hex_digit(f[0]) is Some)),
        f.len() == 1 && hex_field(f) is Ok ==> hex_field(f).unwrap() == hex_digit(f[0]).unwrap(),
        f.len() == 2 ==> ((hex_field(f) is Ok) <==> (hex_digit(f[0]) is Some && hex_digit(
            f[1],
        ) is Some)),
        f.len() == 2 && hex_field(f) is Ok ==> hex_field(f).unwrap() == hex_digit(f[0]).unwrap()
            * 16 + hex_digit(f[1]).unwrap(),
{
    reveal_with_fuel(hex_number, 4);
    if f.len() == 1 {
        assert(f.drop_last() =~= Seq::<char>::empty());
    } else {
        assert(f.drop_last() =~= seq![f[0]]);
        assert(f.drop_last().drop_last() =~= Seq::<char>::empty());
    }
}

/// Every upper-case digit has the value it was made from.
pub proof fn lemma_upper_hex_value(n: int)
    requires
        0 <= n < 16,
    ensures
        hex_digit(upper_hex(n)) == Some(n as nat),
        upper_hex(n) != '+',
{
}

/// A byte's two digits, and below 16 its single digit, spell the byte.
pub proof fn lemma_hex_pair_value(n: u8)
    ensures
        hex_u8_text(hex_pair(n)) == Some(n),
        n < 16 ==> hex_u8_text(seq![upper_hex(n as int)]) == Some(n),
{
    let p = hex_pair(n);
    lemma_upper_hex_value(n as int / 16);
    lemma_upper_hex_value(n as int % 16);
    reveal_with_fuel(hex_number, 4);
    assert(p.drop_last() =~= seq![upper_hex(n as int / 16)]);
    assert(p.drop_last().drop_last() =~= Seq::<char>::empty());
    assert(hex_number(p) == Some(n as nat));
    if n < 16 {
        let q = seq![upper_hex(n as int)];
        lemma_upper_hex_value(n as int);
        assert(q.drop_last() =~= Seq::<char>::empty());
        assert(hex_number(q) == Some(n as nat));
    }
}

impl DeviceIDError {
    /// Renders the error as a message. A failed number parse is rendered as
    /// the parse error renders itself.
    pub fn to_string(&self) -> (r: String)
        ensures
            match *self {
                DeviceIDError::IncorrectStrLen => r@ == "inccorect string length"@,
                DeviceIDError::InvalidFormat => r@ == "invalid string format"@,
                DeviceIDError::OutOfRange => r@ == "out of bounds"@,
                DeviceIDError::IntError(e) => vstd::string::to_string_from_display_ensures::<
                    ParseIntError,
                >(&e, r),
            },
    {
        match self {
            DeviceIDError::IncorrectStrLen => "inccorect string length".to_owned(),
            DeviceIDError::InvalidFormat => "invalid string format".to_owned(),
            DeviceIDError::OutOfRange => "out of bounds".to_owned(),
            DeviceIDError::IntError(ie) => ie.to_string(),
        }
    }
}

impl FromStr for DeviceID {
    type Err = DeviceIDError;

    fn from_str(s: &str) -> (r: Result<DeviceID, DeviceIDError>)
        ensures
            r == DeviceID::from_text(s@),
    {
        DeviceID::from_str(s)
    }
}

} // verus!

//! Hexadecimal text and the calls into the crates that handle it.
use crate::error::Error;
use crate::types::Address;
use vstd::prelude::*;
use vstd::string::StrSliceExecFns;

verus! {

/// The value of a hexadecimal digit, of either case.
pub open spec fn hex_digit_value(c: char) -> Option<u8> {
    if '0' <= c <= '9' {
        Some((c as u32 - '0' as u32) as u8)
    } else if 'a' <= c <= 'f' {
        Some((c as u32 - 'a' as u32 + 10) as u8)
    } else if 'A' <= c <= 'F' {
        Some((c as u32 - 'A' as u32 + 10) as u8)
    } else {
        None
    }
}

/// The bytes that hexadecimal text of even length stands for, two digits
/// each, or `None` for text of odd length or with a character that is no
/// hexadecimal digit.
pub open spec fn hex_decoding(s: Seq<char>) -> Option<Seq<u8>> {
    if s.len() % 2 != 0 || exists|i: int| 0 <= i < s.len() && (#[trigger] hex_digit_value(s[i])) is None {
        None
    } else {
        Some(
            Seq::new(
                s.len() / 2,
                |i: int|
                    (hex_digit_value(s[2 * i])->0 * 16 + hex_digit_value(s[2 * i + 1])->0) as u8,
            ),
        )
    }
}

/// The lower-case hexadecimal digit of a value below 16.
pub open spec fn hex_digit(v: int) -> char {
    if v < 10 {
        ('0' as int + v) as char
    } else {
        ('a' as int + v - 10) as char
    }
}

/// Lower-case hexadecimal text of bytes, two digits each.
pub open spec fn hex_encoding(b: Seq<u8>) -> Seq<char> {
    Seq::new(
        2 * b.len(),
        |i: int|
            if i % 2 == 0 {
                hex_digit(b[i / 2] as int / 16)
            } else {
                hex_digit(b[i / 2] as int % 16)
            },
    )
}

/// Relies on `hex::decode`: digits of either case, two to a byte; an odd
/// length or any other character is an error.
#[verifier::external_body]
pub(crate) fn decode_hex(s: &str) -> (r: Option<Vec<u8>>)
    ensures
        r matches Some(b) ==> hex_decoding(s@) == Some(b@),
        r is None ==> hex_decoding(s@) is None,
{
    hex::decode(s).ok()
}

/// Relies on `hex::encode`: two lower-case digits to a byte.
#[verifier::external_body]
pub(crate) fn encode_hex(b: &[u8]) -> (r: String)
    ensures
        r@ == hex_encoding(b@),
{
    hex::encode(b)
}

/// Text without a leading `0x`.
pub open spec fn without_0x(s: Seq<char>) -> Seq<char> {
    if s.len() >= 2 && s[0] == '0' && s[1] == 'x' {
        s.subrange(2, s.len() as int)
    } else {
        s
    }
}

pub fn strip_0x(s: &str) -> (r: &str)
    ensures
        r@ == without_0x(s@),
{
    let n = s.unicode_len();
    if n >= 2 && s.get_char(0) == '0' && s.get_char(1) == 'x' {
        s.substring_char(2, n)
    } else {
        s
    }
}

impl Address {
    /// Reads an address from 40 hexadecimal digits, with or without a
    /// leading `0x`.
    pub fn from_hex_string(s: &str) -> (r: Result<Address, Error>)
        ensures
            r matches Ok(a) ==> hex_decoding(without_0x(s@)) == Some(a.0@),
            r is Err <==> !(hex_decoding(without_0x(s@)) matches Some(b) && b.len() == 20),
            r is Err ==> r == Err::<Address, Error>(Error::InputValidation),
    {
        let digits = strip_0x(s);
        let bytes = match decode_hex(digits) {
            Some(b) => b,
            None => return Err(Error::InputValidation),
        };
        if bytes.len() != 20 {
            return Err(Error::InputValidation);
        }
        let mut a = [0u8; 20];
        let mut i: usize = 0;
        while i < 20
            invariant
                0 <= i <= 20,
                bytes@.len() == 20,
                a@.len() == 20,
                forall|j: int| 0 <= j < i ==> a@[j] == bytes@[j],
            decreases 20 - i,
        {
            a[i] = bytes[i];
            i = i + 1;
        }
        assert(a@ =~= bytes@);
        Ok(Address(a))
    }

    /// The address as 40 lower-case hexadecimal digits.
    pub fn to_hex_string(&self) -> (r: String)
        ensures
            r@ == hex_encoding(self.0@),
    {
        encode_hex(self.0.as_slice())
    }
}

} // verus!

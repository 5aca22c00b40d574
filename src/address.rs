//! The human-readable form of an account: `0x` followed by 40 hexadecimal digits.
use vstd::prelude::*;
use crate::account::AccountId20;

verus! {

/// The lower-case hexadecimal digit of a value below 16.
pub open spec fn hex_digit(n: u8) -> char {
    if n < 10 {
        (n + 48) as char
    } else {
        (n + 87) as char
    }
}

/// The value of a hexadecimal digit of either case, or `None` for another character.
pub open spec fn hex_value(c: char) -> Option<u8> {
    if '0' <= c <= '9' {
        Some((c as u32 - 48) as u8)
    } else if 'a' <= c <= 'f' {
        Some((c as u32 - 87) as u8)
    } else if 'A' <= c <= 'F' {
        Some((c as u32 - 55) as u8)
    } else {
        None
    }
}

/// Two lower-case hexadecimal digits for each byte, high digit first.
pub open spec fn hex_of(bytes: Seq<u8>) -> Seq<char> {
    Seq::new(
        2 * bytes.len(),
        |i: int|
            if i % 2 == 0 {
                hex_digit(bytes[i / 2] / 16)
            } else {
                hex_digit(bytes[i / 2] % 16)
            },
    )
}

/// The written form of an account's bytes: `0x`, then their hexadecimal digits.
pub open spec fn format_address(bytes: Seq<u8>) -> Seq<char> {
    seq!['0', 'x'] + hex_of(bytes)
}

/// The text after a leading `0x`, if there is one.
pub open spec fn without_0x(s: Seq<char>) -> Seq<char> {
    if s.len() >= 2 && s[0] == '0' && s[1] == 'x' {
        s.subrange(2, s.len() as int)
    } else {
        s
    }
}

/// Whether `digits` are 40 hexadecimal digits.
pub open spec fn is_address_digits(digits: Seq<char>) -> bool {
    digits.len() == 40 && forall|i: int| 0 <= i < 40 ==> (#[trigger] hex_value(digits[i])) is Some
}

/// The 20 bytes written by 40 hexadecimal digits.
pub open spec fn bytes_of_digits(digits: Seq<char>) -> Seq<u8> {
    Seq::new(
        20,
        |i: int| (hex_value(digits[2 * i])->0 * 16 + hex_value(digits[2 * i + 1])->0) as u8,
    )
}

/// The account bytes that `s` writes: 40 hexadecimal digits of either case, with or
/// without a leading `0x`; `None` for any other text.
pub open spec fn parse_address(s: Seq<char>) -> Option<Seq<u8>> {
    if is_address_digits(without_0x(s)) {
        Some(bytes_of_digits(without_0x(s)))
    } else {
        None
    }
}

/// The text is not an account: not 40 hexadecimal digits after an optional `0x`.
#[derive(Clone, Copy, Debug, PartialEq, Eq, Structural)]
pub struct InvalidAddressFormat;

/// Relies on `String::from_utf8`, which takes ASCII bytes as the characters they encode.
#[verifier::external_body]
fn ascii_string(bytes: Vec<u8>) -> (r: String)
    requires
        forall|i: int| 0 <= i < bytes@.len() ==> bytes@[i] < 128,
    ensures
        r@ == Seq::new(bytes@.len(), |i: int| bytes@[i] as char),
{
    String::from_utf8(bytes).unwrap_or_default()
}

/// The ASCII code of the lower-case hexadecimal digit of `n`.
fn hex_digit_code(n: u8) -> (r: u8)
    requires
        n < 16,
    ensures
        r < 128,
        r as char == hex_digit(n),
{
    if n < 10 {
        n + 48
    } else {
        n + 87
    }
}

/// The value of a hexadecimal digit.
fn hex_value_of(c: char) -> (r: Option<u8>)
    ensures
        r == hex_value(c),
{
    if '0' <= c && c <= '9' {
        Some((c as u32 - 48) as u8)
    } else if 'a' <= c && c <= 'f' {
        Some((c as u32 - 87) as u8)
    } else if 'A' <= c && c <= 'F' {
        Some((c as u32 - 55) as u8)
    } else {
        None
    }
}

impl AccountId20 {
    /// The written form: `0x` and 40 lower-case hexadecimal digits.
    pub fn to_hex_string(&self) -> (r: String)
        ensures
            r@ == format_address(self.0@),
    {
        let mut codes: Vec<u8> = Vec::new();
        codes.push(48u8);
        codes.push(120u8);
        let mut i: usize = 0;
        while i < 20
            invariant
                i <= 20,
                codes@.len() == 2 + 2 * i,
                codes@[0] == 48u8,
                codes@[1] == 120u8,
                forall|j: int| 0 <= j < codes@.len() ==> codes@[j] < 128,
                forall|j: int|
                    0 <= j < 2 * i ==> (#[trigger] codes@[2 + j]) as char == hex_of(self.0@)[j],
            decreases 20 - i,
        {
            let b = self.0[i];
            codes.push(hex_digit_code(b / 16));
            codes.push(hex_digit_code(b % 16));
            proof {
                assert(hex_of(self.0@)[2 * i as int] == hex_digit(b / 16));
                assert(hex_of(self.0@)[2 * i + 1] == hex_digit(b % 16));
            }
            i = i + 1;
        }
        let r = ascii_string(codes);
        assert(r@ =~= format_address(self.0@)) by {
            assert forall|j: int| 2 <= j < 42 implies r@[j] == hex_of(self.0@)[j - 2] by {
                assert(codes@[2 + (j - 2)] as char == hex_of(self.0@)[j - 2]);
            }
        }
        r
    }

    /// Reads the written form: 40 hexadecimal digits of either case, with or without a
    /// leading `0x`.
    pub fn from_hex_str(s: &str) -> (r: Result<AccountId20, InvalidAddressFormat>)
        ensures
            match r {
                Ok(account) => parse_address(s@) == Some(account.0@),
                Err(_) => parse_address(s@) is None,
            },
    {
        let n = s.unicode_len();
        let start: usize = if n >= 2 && s.get_char(0) == '0' && s.get_char(1) == 'x' {
            2
        } else {
            0
        };
        let ghost digits = without_0x(s@);
        assert(digits =~= s@.subrange(start as int, n as int));
        if n - start != 40 {
            return Err(InvalidAddressFormat);
        }
        let mut out = [0u8; 20];
        let mut i: usize = 0;
        while i < 20
            invariant
                i <= 20,
                n == s@.len(),
                start + 40 == n,
                digits == s@.subrange(start as int, n as int),
                forall|j: int| 0 <= j < 2 * i ==> (#[trigger] hex_value(digits[j])) is Some,
                forall|j: int| 0 <= j < i ==> out@[j] == bytes_of_digits(digits)[j],
            decreases 20 - i,
        {
            let high = hex_value_of(s.get_char(start + 2 * i));
            let low = hex_value_of(s.get_char(start + 2 * i + 1));
            assert(digits[2 * i as int] == s@[start + 2 * i]);
            assert(digits[2 * i + 1] == s@[start + 2 * i + 1]);
            match (high, low) {
                (Some(h), Some(l)) => {
                    out[i] = h * 16 + l;
                },
                _ => {
                    assert(!is_address_digits(digits)) by {
                        if high is None {
                            assert(hex_value(digits[2 * i as int]) is None);
                        } else {
                            assert(hex_value(digits[2 * i + 1]) is None);
                        }
                    }
                    return Err(InvalidAddressFormat);
                },
            }
            i = i + 1;
        }
        assert(out@ =~= bytes_of_digits(digits));
        Ok(AccountId20(out))
    }
}

/// A hexadecimal digit written by `hex_digit` reads back as its value.
proof fn lemma_hex_digit_value(n: u8)
    requires
        n < 16,
    ensures
        hex_value(hex_digit(n)) == Some(n),
{
}

/// Reading the written form of an account gives back its bytes: for every 20 bytes `b`,
/// `parse_address(format_address(b)) == Some(b)`.
pub proof fn lemma_format_parse_round_trip(bytes: Seq<u8>)
    requires
        bytes.len() == 20,
    ensures
        parse_address(format_address(bytes)) == Some(bytes),
{
    let digits = hex_of(bytes);
    assert(without_0x(format_address(bytes)) =~= digits);
    assert forall|i: int| 0 <= i < 40 implies (#[trigger] hex_value(digits[i])) is Some by {
        if i % 2 == 0 {
            lemma_hex_digit_value(bytes[i / 2] / 16);
        } else {
            lemma_hex_digit_value(bytes[i / 2] % 16);
        }
    }
    assert forall|i: int| 0 <= i < 20 implies #[trigger] bytes_of_digits(digits)[i] == bytes[i] by {
        lemma_hex_digit_value(bytes[i] / 16);
        lemma_hex_digit_value(bytes[i] % 16);
        assert(digits[2 * i] == hex_digit(bytes[(2 * i) / 2] / 16));
        assert(digits[2 * i + 1] == hex_digit(bytes[(2 * i + 1) / 2] % 16));
        assert((2 * i) / 2 == i);
        assert((2 * i + 1) / 2 == i);
    }
    assert(bytes_of_digits(digits) =~= bytes);
}

impl std::str::FromStr for AccountId20 {
    type Err = InvalidAddressFormat;

    fn from_str(s: &str) -> Result<AccountId20, InvalidAddressFormat> {
        AccountId20::from_hex_str(s)
    }
}

} // verus!

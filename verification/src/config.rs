//! Startup configuration: the port to listen on and the address that
//! follows from it.

use vstd::prelude::*;
use vstd::string::*;
use crate::decimal::{
    all_digits, decimal_digits, decimal_text, digit_value, digits_value, is_digit,
    lemma_decimal_round_trip, lemma_digits_value_prefix,
};

verus! {

/// The greatest port number.
pub const MAX_PORT: u16 = 65535;

/// The ASCII code of the plus sign.
const PLUS: u8 = 43;

/// The ASCII code of the digit zero.
const DIGIT_ZERO: u8 = 48;

/// The ASCII code of the digit nine.
const DIGIT_NINE: u8 = 57;

/// Why no port could be had from the configuration.
#[derive(Clone, Copy, Debug, PartialEq, Eq, Structural)]
pub enum PortError {
    /// No value was configured at all.
    Missing,
    /// The configured value does not write a port number.
    NotANumber,
}

/// A port text without its optional leading plus sign.
pub open spec fn unsigned_part(s: Seq<char>) -> Seq<char> {
    if s.len() > 0 && s[0] == '+' {
        s.subrange(1, s.len() as int)
    } else {
        s
    }
}

/// Whether `s` writes a port number: an optional plus sign, then one
/// or more decimal digits whose value is at most 65535. Leading zeros
/// are allowed; white space and any other character are not.
pub open spec fn is_port_text(s: Seq<char>) -> bool {
    let d = unsigned_part(s);
    d.len() > 0 && all_digits(d) && digits_value(d) <= MAX_PORT
}

/// The port that a port text writes.
pub open spec fn port_value(s: Seq<char>) -> nat {
    digits_value(unsigned_part(s))
}

/// What the configuration yields: the port that the configured text
/// writes, or the reason why there is none.
pub open spec fn configured_port(value: Option<Seq<char>>) -> Result<u16, PortError> {
    match value {
        None => Err(PortError::Missing),
        Some(s) => if is_port_text(s) {
            Ok(port_value(s) as u16)
        } else {
            Err(PortError::NotANumber)
        },
    }
}

/// The address to listen on for `port`: every interface of the host.
pub open spec fn address_of(port: u16) -> Seq<char> {
    "0.0.0.0:"@ + decimal_digits(port as nat)
}

/// Reads a port number from its text.
pub fn parse_port(text: &str) -> (r: Result<u16, PortError>)
    ensures
        r == configured_port(Some(text@)),
{
    broadcast use {is_ascii_spec_bytes, vstd::slice::group_slice_axioms};

    if !text.is_ascii() {
        proof {
            lemma_digits_are_ascii(text@);
        }
        return Err(PortError::NotANumber);
    }
    let n: usize = text.as_bytes().len();
    assert(n == text@.len()) by {
        assert(is_ascii(text));
        assert(text.spec_bytes().len() == text@.len());
    }
    let start: usize = if n > 0 && text.get_ascii(0) == PLUS {
        1
    } else {
        0
    };
    let ghost d = unsigned_part(text@);
    assert(d.len() == n - start);
    assert(forall|j: int| 0 <= j < d.len() ==> d[j] == text@[j + start]);
    if start == n {
        return Err(PortError::NotANumber);
    }
    let mut acc: u32 = 0;
    let mut i: usize = start;
    while i < n
        invariant
            text.is_ascii(),
            n == text@.len(),
            start <= i <= n,
            d.len() == n - start,
            forall|j: int| 0 <= j < d.len() ==> d[j] == text@[j + start],
            acc <= MAX_PORT,
            acc == digits_value(d.subrange(0, i - start)),
            all_digits(d.subrange(0, i - start)),
            d == unsigned_part(text@),
        decreases n - i,
    {
        let b: u8 = text.get_ascii(i);
        let ghost prefix = d.subrange(0, i - start + 1);
        proof {
            assert(prefix.drop_last() =~= d.subrange(0, i - start));
            assert(prefix.last() == text@[i as int]);
        }
        if b < DIGIT_ZERO || b > DIGIT_NINE {
            assert(!is_digit(d[i - start]));
            return Err(PortError::NotANumber);
        }
        assert(is_digit(text@[i as int]));
        let next: u32 = acc * 10 + (b - DIGIT_ZERO) as u32;
        assert(next == digits_value(prefix));
        if next > MAX_PORT as u32 {
            proof {
                lemma_digits_value_prefix(d, i - start + 1);
            }
            return Err(PortError::NotANumber);
        }
        acc = next;
        i = i + 1;
        assert(all_digits(d.subrange(0, i - start))) by {
            assert forall|j: int| 0 <= j < i - start implies is_digit(
                #[trigger] d.subrange(0, i - start)[j],
            ) by {
                if j < i - start - 1 {
                    assert(d.subrange(0, i - start)[j] == d.subrange(0, i - start - 1)[j]);
                }
            }
        }
    }
    assert(d.subrange(0, n - start) =~= d);
    Ok(acc as u16)
}

/// A text that writes a port number holds ASCII characters only.
proof fn lemma_digits_are_ascii(s: Seq<char>)
    requires
        !vstd::utf8::is_ascii_chars(s),
    ensures
        !is_port_text(s),
{
    let d = unsigned_part(s);
    if d.len() > 0 && all_digits(d) {
        assert forall|i: int| 0 <= i < s.len() implies '\0' <= #[trigger] s[i] <= '\u{7f}' by {
            if s.len() > 0 && s[0] == '+' {
                if i > 0 {
                    assert(is_digit(d[i - 1]));
                }
            } else {
                assert(is_digit(d[i]));
            }
        }
    }
}

/// Settles the port from the configured value, if there is one.
pub fn port_from_env(value: Option<&str>) -> (r: Result<u16, PortError>)
    ensures
        r == configured_port(
            match value {
                Some(text) => Some(text@),
                None => None,
            },
        ),
{
    match value {
        Some(text) => parse_port(text),
        None => Err(PortError::Missing),
    }
}

/// Writes the address to listen on for `port`.
pub fn bind_address(port: u16) -> (r: String)
    ensures
        r@ == address_of(port),
{
    let mut address = String::from_str("0.0.0.0:");
    let digits = decimal_text(port as u64);
    address.append(digits.as_str());
    address
}

/// The line that announces where the server is about to listen.
pub fn startup_banner(address: &str) -> (r: String)
    ensures
        r@ == "Starting server at http://"@ + address@,
{
    let mut line = String::from_str("Starting server at http://");
    line.append(address);
    line
}

/// Every port can be configured by its own decimal notation: the text
/// that an address ends in reads back as the port it was written for.
pub proof fn lemma_port_round_trip(port: u16)
    ensures
        configured_port(Some(decimal_digits(port as nat))) == Ok::<u16, PortError>(port),
{
    let s = decimal_digits(port as nat);
    lemma_decimal_round_trip(port as nat);
    assert(is_digit(s[0]));
    assert(unsigned_part(s) == s);
}

} // verus!

//! Where the service listens.

use vstd::prelude::*;
use vstd::string::*;

verus! {

/// Whether `c` is one of the decimal digits `0` to `9`.
pub open spec fn is_digit(c: char) -> bool {
    0x30 <= c as u32 <= 0x39
}

/// Whether `text` is made of decimal digits only.
pub open spec fn all_digits(text: Seq<char>) -> bool {
    forall|i: int| 0 <= i < text.len() ==> is_digit(#[trigger] text[i])
}

/// The number that the decimal digits of `digits` write.
pub open spec fn decimal_value(digits: Seq<char>) -> int
    decreases digits.len(),
{
    if digits.len() == 0 {
        0
    } else {
        10 * decimal_value(digits.drop_last()) + (digits.last() as u32 - 0x30)
    }
}

/// `text` without the `+` that it may start with.
pub open spec fn unsigned_digits(text: Seq<char>) -> Seq<char> {
    if text.len() > 0 && text[0] == '+' {
        text.skip(1)
    } else {
        text
    }
}

/// The port that `text` writes: a decimal number of at least one digit, with
/// nothing around it but an optional `+` in front, that is no greater than
/// 65535. Any other text writes no port.
pub open spec fn port_of(text: Seq<char>) -> Option<u16> {
    let digits = unsigned_digits(text);
    if digits.len() > 0 && all_digits(digits) && decimal_value(digits) <= u16::MAX {
        Some(decimal_value(digits) as u16)
    } else {
        None
    }
}

/// The address to listen on when none is configured.
pub open spec fn default_address() -> Seq<char> {
    "127.0.0.1"@
}

/// The port to listen on when none is configured, or none that can be read.
pub open spec fn default_port() -> u16 {
    8080
}

/// A number written in digits is at least the number that any of its
/// beginnings writes.
proof fn lemma_value_grows(digits: Seq<char>, k: int)
    requires
        all_digits(digits),
        0 <= k <= digits.len(),
    ensures
        0 <= decimal_value(digits.take(k)) <= decimal_value(digits),
    decreases digits.len() - k,
{
    if k == digits.len() {
        assert(digits.take(k) == digits);
        lemma_value_not_negative(digits);
    } else {
        let front = digits.drop_last();
        assert(front.take(k) == digits.take(k));
        assert(is_digit(digits.last()));
        assert forall|i: int| 0 <= i < front.len() implies is_digit(#[trigger] front[i]) by {
            assert(front[i] == digits[i]);
        }
        lemma_value_grows(front, k);
    }
}

proof fn lemma_value_not_negative(digits: Seq<char>)
    requires
        all_digits(digits),
    ensures
        0 <= decimal_value(digits),
    decreases digits.len(),
{
    if digits.len() > 0 {
        let front = digits.drop_last();
        assert(is_digit(digits.last()));
        assert forall|i: int| 0 <= i < front.len() implies is_digit(#[trigger] front[i]) by {
            assert(front[i] == digits[i]);
        }
        lemma_value_not_negative(front);
    }
}

/// Reads a port number.
pub fn parse_port(text: &str) -> (port: Option<u16>)
    ensures
        port == port_of(text@),
{
    let length = text.unicode_len();
    let digits = if length > 0 && text.get_char(0) == '+' {
        text.substring_char(1, length)
    } else {
        text
    };
    assert(digits@ == unsigned_digits(text@));
    let mut value: u32 = 0;
    let ghost mut read: int = 0;
    assert(digits@.take(0) == Seq::<char>::empty());
    for c in it: digits.chars()
        invariant
            read == it.index(),
            it.seq() == digits@,
            digits@ == unsigned_digits(text@),
            all_digits(digits@.take(read)),
            value == decimal_value(digits@.take(read)),
            value <= u16::MAX,
    {
        let code: u32 = c as u32;
        if code < 0x30 || code > 0x39 {
            assert(!is_digit(digits@[read]));
            return None;
        }
        proof {
            let longer = digits@.take(read + 1);
            assert(longer.drop_last() == digits@.take(read));
            assert(longer.last() == c);
            assert forall|i: int| 0 <= i < longer.len() implies is_digit(#[trigger] longer[i]) by {
                if i < read {
                    assert(longer[i] == digits@.take(read)[i]);
                }
            }
        }
        value = value * 10 + (code - 0x30);
        if value > 65535 {
            proof {
                if all_digits(digits@) {
                    lemma_value_grows(digits@, read + 1);
                }
            }
            return None;
        }
        proof {
            read = read + 1;
        }
    }
    assert(digits@.take(read) == digits@);
    if digits.is_empty() {
        None
    } else {
        Some(value as u16)
    }
}

/// Settles where the service listens, from the values of the `ADDRESS` and
/// `PORT` settings: the address as given, or the loopback address; the port
/// as written, or 8080 where none is given or what is given writes no port.
pub fn address_from_env(address: Option<String>, port: Option<String>) -> (bound: (String, u16))
    ensures
        bound.0@ == match address {
            Some(given) => given@,
            None => default_address(),
        },
        bound.1 == match port {
            Some(text) => match port_of(text@) {
                Some(number) => number,
                None => default_port(),
            },
            None => default_port(),
        },
{
    let address = match address {
        Some(given) => given,
        None => "127.0.0.1".to_owned(),
    };
    let port = match port {
        Some(text) => match parse_port(text.as_str()) {
            Some(number) => number,
            None => 8080,
        },
        None => 8080,
    };
    (address, port)
}

} // verus!

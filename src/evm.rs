//! EVM addresses and chain ids as text: hex address syntax, the checksummed
//! form that alloy produces, and decimal chain references.

use vstd::prelude::*;
use vstd::string::*;

verus! {

pub open spec fn is_hex_digit(c: char) -> bool {
    ('0' <= c && c <= '9') || ('a' <= c && c <= 'f') || ('A' <= c && c <= 'F')
}

pub open spec fn hex_value(c: char) -> int {
    if '0' <= c && c <= '9' {
        c as int - '0' as int
    } else if 'a' <= c && c <= 'f' {
        c as int - 'a' as int + 10
    } else {
        c as int - 'A' as int + 10
    }
}

/// The text with a leading `0x` or `0X` removed, if it has one.
pub open spec fn strip_hex_prefix(s: Seq<char>) -> Seq<char> {
    if s.len() >= 2 && s[0] == '0' && (s[1] == 'x' || s[1] == 'X') {
        s.subrange(2, s.len() as int)
    } else {
        s
    }
}

/// Forty hex digits of either case, optionally after `0x` or `0X`.
pub open spec fn is_evm_address(s: Seq<char>) -> bool {
    let d = strip_hex_prefix(s);
    d.len() == 40 && forall|i: int| 0 <= i < 40 ==> is_hex_digit(#[trigger] d[i])
}

/// The twenty bytes that the hex digits of an address spell, high digit first.
pub open spec fn address_bytes(s: Seq<char>) -> Seq<u8> {
    let d = strip_hex_prefix(s);
    Seq::new(20, |i: int| (16 * hex_value(d[2 * i]) + hex_value(d[2 * i + 1])) as u8)
}

/// The `i`-th hex digit value of a byte string, high digit of each byte first.
pub open spec fn nibble(bytes: Seq<u8>, i: int) -> int {
    if i % 2 == 0 {
        bytes[i / 2] as int / 16
    } else {
        bytes[i / 2] as int % 16
    }
}

/// The EIP-55 mixed-case text (`0x` and forty digits) of an address.
pub uninterp spec fn checksum_text(bytes: Seq<u8>) -> Seq<char>;

/// Relies on alloy's `Address::from_str` (hex decoding of a fixed-size byte
/// array): it accepts an optional `0x`/`0X` prefix followed by exactly forty
/// hex digits of either case, and yields the bytes those digits spell.
#[verifier::external_body]
fn decode_address(s: &str) -> (r: Option<[u8; 20]>)
    ensures
        (r is Some) == is_evm_address(s@),
        r matches Some(b) ==> b@ == address_bytes(s@),
{
    s.parse::<alloy::primitives::Address>().ok().map(|a| a.0.0)
}

/// Relies on alloy's `Address::to_checksum` with no chain id: the EIP-55
/// checksummed text of the address, which depends on its bytes alone. It is
/// `0x` followed by the forty hex digits of the bytes, some letters upper-cased.
#[verifier::external_body]
fn encode_checksummed(bytes: [u8; 20]) -> (r: String)
    ensures
        r@ == checksum_text(bytes@),
        r@.len() == 42,
        r@[0] == '0',
        r@[1] == 'x',
        forall|i: int|
            0 <= i < 40 ==> is_hex_digit(#[trigger] r@[2 + i]) && hex_value(r@[2 + i]) == nibble(
                bytes@,
                i,
            ),
{
    alloy::primitives::Address::from(bytes).to_checksum(None)
}

/// The canonical (checksummed) text of an EVM address, or `None` when the
/// text is not an address.
pub fn normalize_address(s: &str) -> (r: Option<String>)
    ensures
        (r is Some) == is_evm_address(s@),
        r matches Some(t) ==> t@ == checksum_text(address_bytes(s@)) && is_evm_address(t@)
            && address_bytes(t@) == address_bytes(s@),
{
    match decode_address(s) {
        Some(bytes) => {
            let t = encode_checksummed(bytes);
            proof {
                let d = strip_hex_prefix(t@);
                assert(d =~= t@.subrange(2, 42));
                assert forall|i: int| 0 <= i < 40 implies is_hex_digit(#[trigger] d[i]) by {
                    assert(d[i] == t@[2 + i]);
                }
                assert forall|k: int| 0 <= k < 20 implies #[trigger] address_bytes(t@)[k]
                    == bytes@[k] by {
                    assert(d[2 * k] == t@[2 + 2 * k]);
                    assert(d[2 * k + 1] == t@[2 + (2 * k + 1)]);
                    assert(hex_value(d[2 * k]) == bytes@[k] as int / 16);
                    assert(hex_value(d[2 * k + 1]) == bytes@[k] as int % 16);
                    let b = bytes@[k] as int;
                    assert(16 * (b / 16) + b % 16 == b);
                }
                assert(address_bytes(t@) =~= bytes@);
            }
            Some(t)
        },
        None => None,
    }
}

/// Whether the text is an EVM address.
pub fn is_address(s: &str) -> (r: bool)
    ensures
        r == is_evm_address(s@),
{
    decode_address(s).is_some()
}

pub open spec fn digit_char(d: int) -> char {
    if d == 0 {
        '0'
    } else if d == 1 {
        '1'
    } else if d == 2 {
        '2'
    } else if d == 3 {
        '3'
    } else if d == 4 {
        '4'
    } else if d == 5 {
        '5'
    } else if d == 6 {
        '6'
    } else if d == 7 {
        '7'
    } else if d == 8 {
        '8'
    } else {
        '9'
    }
}

/// The decimal digits of `n`, without leading zeros.
pub open spec fn decimal(n: nat) -> Seq<char>
    decreases n,
{
    if n < 10 {
        seq![digit_char(n as int)]
    } else {
        decimal(n / 10).push(digit_char((n % 10) as int))
    }
}

fn digit_text(d: u64) -> (r: &'static str)
    requires
        d < 10,
    ensures
        r@ == seq![digit_char(d as int)],
{
    let r = if d == 0 {
        proof {
            reveal_strlit("0");
        }
        "0"
    } else if d == 1 {
        proof {
            reveal_strlit("1");
        }
        "1"
    } else if d == 2 {
        proof {
            reveal_strlit("2");
        }
        "2"
    } else if d == 3 {
        proof {
            reveal_strlit("3");
        }
        "3"
    } else if d == 4 {
        proof {
            reveal_strlit("4");
        }
        "4"
    } else if d == 5 {
        proof {
            reveal_strlit("5");
        }
        "5"
    } else if d == 6 {
        proof {
            reveal_strlit("6");
        }
        "6"
    } else if d == 7 {
        proof {
            reveal_strlit("7");
        }
        "7"
    } else if d == 8 {
        proof {
            reveal_strlit("8");
        }
        "8"
    } else {
        proof {
            reveal_strlit("9");
        }
        "9"
    };
    assert(r@ =~= seq![digit_char(d as int)]);
    r
}

/// The decimal text of a chain id.
pub fn decimal_text(n: u64) -> (r: String)
    ensures
        r@ == decimal(n as nat),
    decreases n,
{
    if n < 10 {
        String::from_str(digit_text(n))
    } else {
        let mut r = decimal_text(n / 10);
        r.append(digit_text(n % 10));
        assert(r@ =~= decimal(n as nat));
        r
    }
}

} // verus!

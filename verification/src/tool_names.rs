//! Tool names on the wire.
//!
//! The Anthropic API does not accept dots in the names of tools, so a name goes over
//! the wire as the prefix `tool_` and the hexadecimal digits of its bytes.

use vstd::prelude::*;
use vstd::string::*;
use vstd::utf8::*;

use crate::text::{begins_with, behind_prefix, chars_of, occurs_at, strip_prefix, utf8_text};

verus! {

/// The hexadecimal digit for a number below sixteen.
pub open spec fn hex_char(d: int) -> char {
    if d == 0 {
        '0'
    } else if d == 1 {
        '1'
    } else if d == 2 {
        '2'
    } else if d == 3 {
        '3'
    } else if d == 4 {
        '4'
    } else if d == 5 {
        '5'
    } else if d == 6 {
        '6'
    } else if d == 7 {
        '7'
    } else if d == 8 {
        '8'
    } else if d == 9 {
        '9'
    } else if d == 10 {
        'a'
    } else if d == 11 {
        'b'
    } else if d == 12 {
        'c'
    } else if d == 13 {
        'd'
    } else if d == 14 {
        'e'
    } else {
        'f'
    }
}

/// The value of a hexadecimal digit, in lower or upper case.
pub open spec fn hex_value(c: char) -> Option<int> {
    if '0' <= c && c <= '9' {
        Some(c as int - '0' as int)
    } else if 'a' <= c && c <= 'f' {
        Some(c as int - 'a' as int + 10)
    } else if 'A' <= c && c <= 'F' {
        Some(c as int - 'A' as int + 10)
    } else {
        None
    }
}

/// Two hexadecimal digits for each byte.
pub open spec fn hex(bytes: Seq<u8>) -> Seq<char>
    decreases bytes.len(),
{
    if bytes.len() == 0 {
        Seq::empty()
    } else {
        hex(bytes.drop_last()).push(hex_char(bytes.last() as int / 16)).push(
            hex_char(bytes.last() as int % 16),
        )
    }
}

/// Every character is a hexadecimal digit.
pub open spec fn all_hex(s: Seq<char>) -> bool {
    forall|i: int| 0 <= i < s.len() ==> hex_value(#[trigger] s[i]) is Some
}

/// The bytes that pairs of hexadecimal digits stand for.
pub open spec fn unhex(s: Seq<char>) -> Seq<u8>
    decreases s.len(),
{
    if s.len() < 2 {
        Seq::empty()
    } else {
        unhex(s.subrange(0, s.len() - 2)).push(
            (hex_value(s[s.len() - 2])->Some_0 * 16 + hex_value(s[s.len() - 1])->Some_0) as u8,
        )
    }
}

/// The name of a tool on the wire.
pub open spec fn encoded(name: Seq<char>) -> Seq<char> {
    "tool_"@ + hex(encode_utf8(name))
}

/// The name of a tool that a name on the wire stands for. A name that is not encoded
/// stands for itself.
pub open spec fn decoded(name: Seq<char>) -> Seq<char> {
    match behind_prefix(name, "tool_"@) {
        None => name,
        Some(digits) => if digits.len() % 2 == 0 && all_hex(digits) && valid_utf8(unhex(digits)) {
            decode_utf8(unhex(digits))
        } else {
            name
        },
    }
}

fn hex_digit(d: u8) -> (c: char)
    requires
        d < 16,
    ensures
        c == hex_char(d as int),
{
    if d == 0 {
        '0'
    } else if d == 1 {
        '1'
    } else if d == 2 {
        '2'
    } else if d == 3 {
        '3'
    } else if d == 4 {
        '4'
    } else if d == 5 {
        '5'
    } else if d == 6 {
        '6'
    } else if d == 7 {
        '7'
    } else if d == 8 {
        '8'
    } else if d == 9 {
        '9'
    } else if d == 10 {
        'a'
    } else if d == 11 {
        'b'
    } else if d == 12 {
        'c'
    } else if d == 13 {
        'd'
    } else if d == 14 {
        'e'
    } else {
        'f'
    }
}

fn digit_value(c: char) -> (r: Option<u8>)
    ensures
        match r {
            Some(v) => hex_value(c) == Some(v as int) && v < 16,
            None => hex_value(c) is None,
        },
{
    if '0' <= c && c <= '9' {
        Some((c as u32 - '0' as u32) as u8)
    } else if 'a' <= c && c <= 'f' {
        Some((c as u32 - 'a' as u32) as u8 + 10)
    } else if 'A' <= c && c <= 'F' {
        Some((c as u32 - 'A' as u32) as u8 + 10)
    } else {
        None
    }
}

/// Encodes the name of a tool for the wire.
pub fn encode_anthropic_tool_name(name: &str) -> (r: String)
    ensures
        r@ == encoded(name@),
{
    let bytes = name.as_bytes();
    let mut digits = String::new();
    let mut i: usize = 0;
    assert(digits@ =~= hex(bytes@.subrange(0, 0)));
    while i < bytes.len()
        invariant
            i <= bytes@.len(),
            digits@ == hex(bytes@.subrange(0, i as int)),
        decreases bytes@.len() - i,
    {
        let b: u8 = bytes[i];
        assert(bytes@.subrange(0, i + 1).drop_last() =~= bytes@.subrange(0, i as int));
        digits.push(hex_digit(b / 16));
        digits.push(hex_digit(b % 16));
        i = i + 1;
    }
    assert(bytes@.subrange(0, bytes@.len() as int) =~= bytes@);
    let mut r = "tool_".to_owned();
    r.append(digits.as_str());
    r
}

/// Decodes a name on the wire. A name that is not encoded is returned as it is.
pub fn decode_anthropic_tool_name(name: &str) -> (r: String)
    ensures
        r@ == decoded(name@),
{
    let digits = match strip_prefix(name, "tool_") {
        Some(d) => chars_of(d.as_str()),
        None => {
            return name.to_owned();
        },
    };
    if digits.len() % 2 != 0 {
        return name.to_owned();
    }
    let mut bytes: Vec<u8> = Vec::new();
    let mut i: usize = 0;
    assert(bytes@ =~= unhex(digits@.subrange(0, 0)));
    while i < digits.len()
        invariant
            behind_prefix(name@, "tool_"@) == Some(digits@),
            digits@.len() % 2 == 0,
            i % 2 == 0,
            i <= digits@.len(),
            bytes@ == unhex(digits@.subrange(0, i as int)),
            forall|k: int| 0 <= k < i ==> hex_value(#[trigger] digits@[k]) is Some,
        decreases digits@.len() - i,
    {
        assert(i + 2 <= digits@.len());
        let high = digit_value(digits[i]);
        let low = digit_value(digits[i + 1]);
        match (high, low) {
            (Some(h), Some(l)) => {
                let ghost now = digits@.subrange(0, i + 2);
                assert(now.subrange(0, now.len() - 2) =~= digits@.subrange(0, i as int));
                assert(now[now.len() - 2] == digits@[i as int]);
                assert(now[now.len() - 1] == digits@[i + 1]);
                bytes.push(h * 16 + l);
            },
            _ => {
                assert(!all_hex(digits@)) by {
                    assert(hex_value(digits@[i as int]) is None || hex_value(
                        digits@[i + 1],
                    ) is None);
                }
                return name.to_owned();
            },
        }
        i = i + 2;
    }
    assert(digits@.subrange(0, digits@.len() as int) =~= digits@);
    match utf8_text(bytes) {
        Some(t) => t,
        None => name.to_owned(),
    }
}

// ---------------------------------------------------------------------------
// Laws
// ---------------------------------------------------------------------------

/// A digit stands for the number that it was made from.
proof fn hex_char_value(d: int)
    requires
        0 <= d < 16,
    ensures
        hex_value(hex_char(d)) == Some(d),
{
}

/// The bytes come back from their digits.
proof fn unhex_hex(bytes: Seq<u8>)
    ensures
        all_hex(hex(bytes)),
        hex(bytes).len() == 2 * bytes.len(),
        unhex(hex(bytes)) == bytes,
    decreases bytes.len(),
{
    if bytes.len() > 0 {
        let front = bytes.drop_last();
        let b = bytes.last();
        unhex_hex(front);
        hex_char_value(b as int / 16);
        hex_char_value(b as int % 16);
        let h = hex(bytes);
        assert(h.subrange(0, h.len() - 2) =~= hex(front));
        assert(h[h.len() - 2] == hex_char(b as int / 16));
        assert(h[h.len() - 1] == hex_char(b as int % 16));
        assert(b as int / 16 * 16 + b as int % 16 == b as int);
        assert(unhex(h) =~= bytes);
        assert forall|i: int| 0 <= i < h.len() implies hex_value(#[trigger] h[i]) is Some by {
            if i < h.len() - 2 {
                assert(h[i] == hex(front)[i]);
            }
        }
    } else {
        assert(unhex(hex(bytes)) =~= bytes);
    }
}

/// Every name comes back from the wire as it was sent.
pub proof fn names_survive_the_wire(name: Seq<char>)
    ensures
        decoded(encoded(name)) == name,
{
    let bytes = encode_utf8(name);
    let wire = encoded(name);
    let prefix = "tool_"@;
    unhex_hex(bytes);
    encode_utf8_valid_utf8(name);
    encode_utf8_decode_utf8(name);
    assert(wire.subrange(0, prefix.len() as int) =~= prefix);
    assert(occurs_at(wire, prefix, 0));
    assert(wire.subrange(prefix.len() as int, wire.len() as int) =~= hex(bytes));
}

/// Two tools never share a name on the wire.
pub proof fn wire_names_differ(a: Seq<char>, b: Seq<char>)
    requires
        encoded(a) == encoded(b),
    ensures
        a == b,
{
    names_survive_the_wire(a);
    names_survive_the_wire(b);
}

/// A name without the prefix is never changed.
pub proof fn plain_names_stay(name: Seq<char>)
    requires
        !begins_with(name, "tool_"@),
    ensures
        decoded(name) == name,
{
}

/// A name on the wire begins with the prefix and holds nothing but small letters, digits
/// and underscores, two characters for each byte of the name, which every API accepts.
pub proof fn wire_names_are_plain(name: Seq<char>)
    ensures
        begins_with(encoded(name), "tool_"@),
        encoded(name).len() == 5 + 2 * encode_utf8(name).len(),
        forall|i: int|
            0 <= i < encoded(name).len() ==> {
                let c = #[trigger] encoded(name)[i];
                ('a' <= c && c <= 'z') || ('0' <= c && c <= '9') || c == '_'
            },
{
    reveal_strlit("tool_");
    let prefix = "tool_"@;
    assert(prefix.len() == 5 && prefix[0] == 't' && prefix[1] == 'o' && prefix[2] == 'o'
        && prefix[3] == 'l' && prefix[4] == '_');
    hex_is_plain(encode_utf8(name));
    assert(encoded(name).subrange(0, 5) =~= prefix);
    assert forall|i: int| 0 <= i < encoded(name).len() implies {
        let c = #[trigger] encoded(name)[i];
        ('a' <= c && c <= 'z') || ('0' <= c && c <= '9') || c == '_'
    } by {
        if i < 5 {
            assert(encoded(name)[i] == prefix[i]);
        } else {
            assert(encoded(name)[i] == hex(encode_utf8(name))[i - 5]);
        }
    }
}

proof fn hex_is_plain(bytes: Seq<u8>)
    ensures
        hex(bytes).len() == 2 * bytes.len(),
        forall|i: int|
            0 <= i < hex(bytes).len() ==> {
                let c = #[trigger] hex(bytes)[i];
                ('a' <= c && c <= 'z') || ('0' <= c && c <= '9')
            },
    decreases bytes.len(),
{
    if bytes.len() > 0 {
        hex_is_plain(bytes.drop_last());
    }
}

} // verus!

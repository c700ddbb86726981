//! Parsing of textual hardware addresses: six two-digit hexadecimal
//! groups, joined by one consistent delimiter (a colon or a dash),
//! become six bytes.

use vstd::prelude::*;

verus! {

/// A hexadecimal digit, either case.
pub open spec fn is_hex_digit(c: char) -> bool {
    ('0' <= c && c <= '9') || ('a' <= c && c <= 'f') || ('A' <= c && c <= 'F')
}

/// Numeric value of a hexadecimal digit.
pub open spec fn hex_value(c: char) -> int {
    if '0' <= c && c <= '9' {
        c as int - '0' as int
    } else if 'a' <= c && c <= 'f' {
        c as int - 'a' as int + 10
    } else {
        c as int - 'A' as int + 10
    }
}

/// A group delimiter of a hardware-address string.
pub open spec fn is_mac_sep(c: char) -> bool {
    c == ':' || c == '-'
}

/// A well-formed hardware-address string: six two-digit hexadecimal
/// groups, the groups separated by one delimiter — a colon or a dash —
/// used at every position.
pub open spec fn mac_str_well_formed(s: Seq<char>) -> bool {
    &&& s.len() == 17
    &&& forall|k: int|
        0 <= k < 6 ==> is_hex_digit(#[trigger] s[3 * k]) && is_hex_digit(s[3 * k + 1])
    &&& is_mac_sep(s[2])
    &&& forall|k: int| 0 <= k < 5 ==> #[trigger] s[3 * k + 2] == s[2]
}

/// Byte `k` of a well-formed hardware-address string.
pub open spec fn mac_byte(s: Seq<char>, k: int) -> u8 {
    (hex_value(s[3 * k]) * 16 + hex_value(s[3 * k + 1])) as u8
}

/// The six bytes of a well-formed hardware-address string.
pub open spec fn mac_bytes(s: Seq<char>) -> Seq<u8> {
    Seq::new(6, |k: int| mac_byte(s, k))
}

/// What `parse_mac` returns on every input.
pub open spec fn parse_mac_spec(s: Seq<char>) -> Option<Seq<u8>> {
    if mac_str_well_formed(s) {
        Some(mac_bytes(s))
    } else {
        None
    }
}

/// Numeric value of a hexadecimal digit, or `None` for any other
/// character.
pub fn hex_digit_value(c: char) -> (r: Option<u8>)
    ensures
        match r {
            Some(v) => is_hex_digit(c) && v == hex_value(c),
            None => !is_hex_digit(c),
        },
{
    if '0' <= c && c <= '9' {
        Some(((c as u32) - ('0' as u32)) as u8)
    } else if 'a' <= c && c <= 'f' {
        Some(((c as u32) - ('a' as u32) + 10) as u8)
    } else if 'A' <= c && c <= 'F' {
        Some(((c as u32) - ('A' as u32) + 10) as u8)
    } else {
        None
    }
}

/// Parses a hardware-address string into its six bytes; anything but six
/// two-digit hexadecimal groups joined by one consistent delimiter — a
/// colon or a dash — gives `None`.
pub fn parse_mac(s: &str) -> (r: Option<Vec<u8>>)
    ensures
        match r {
            Some(bytes) => parse_mac_spec(s@) == Some(bytes@),
            None => parse_mac_spec(s@) is None,
        },
{
    let len = s.unicode_len();
    if len != 17 {
        return None;
    }
    let delimiter = s.get_char(2);
    if !(delimiter == ':' || delimiter == '-') {
        return None;
    }
    let mut bytes: Vec<u8> = Vec::new();
    for k in 0..6usize
        invariant
            s@.len() == 17,
            bytes@.len() == k,
            delimiter == s@[2] && is_mac_sep(s@[2]),
            forall|j: int|
                0 <= j < k ==> is_hex_digit(#[trigger] s@[3 * j]) && is_hex_digit(s@[3 * j + 1])
                    && bytes@[j] == mac_byte(s@, j),
            forall|j: int| 0 <= j < k && j < 5 ==> #[trigger] s@[3 * j + 2] == s@[2],
    {
        let c0 = s.get_char(3 * k);
        let c1 = s.get_char(3 * k + 1);
        let h0 = match hex_digit_value(c0) {
            Some(v) => v,
            None => {
                return None;
            },
        };
        let h1 = match hex_digit_value(c1) {
            Some(v) => v,
            None => {
                return None;
            },
        };
        if k < 5 {
            let sep = s.get_char(3 * k + 2);
            if sep != delimiter {
                return None;
            }
        }
        bytes.push(h0 * 16 + h1);
    }
    assert(mac_str_well_formed(s@));
    assert(bytes@ =~= mac_bytes(s@));
    Some(bytes)
}

} // verus!

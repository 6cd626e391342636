//! Lower-case hexadecimal text of byte strings, as stored for encrypted fields.
use crate::text::push_char;
use vstd::prelude::*;

verus! {

/// The lower-case character of a hexadecimal digit.
pub open spec fn hex_digit(d: nat) -> char {
    if d < 10 {
        crate::text::decimal_digit(d)
    } else if d == 10 {
        'a'
    } else if d == 11 {
        'b'
    } else if d == 12 {
        'c'
    } else if d == 13 {
        'd'
    } else if d == 14 {
        'e'
    } else {
        'f'
    }
}

/// The value of a hexadecimal character, either case.
pub open spec fn hex_value(c: char) -> Option<nat> {
    if '0' <= c && c <= '9' {
        Some((c as nat - '0' as nat) as nat)
    } else if 'a' <= c && c <= 'f' {
        Some((c as nat - 'a' as nat + 10) as nat)
    } else if 'A' <= c && c <= 'F' {
        Some((c as nat - 'A' as nat + 10) as nat)
    } else {
        None
    }
}

/// Two lower-case digits per byte, high nibble first.
pub open spec fn hex_text(b: Seq<u8>) -> Seq<char> {
    Seq::new(
        2 * b.len(),
        |j: int|
            if j % 2 == 0 {
                hex_digit((b[j / 2] / 16) as nat)
            } else {
                hex_digit((b[j / 2] % 16) as nat)
            },
    )
}

/// The bytes that a hexadecimal text stands for, if it is one.
pub open spec fn hex_bytes(s: Seq<char>) -> Option<Seq<u8>> {
    if s.len() % 2 == 0 && forall|j: int| 0 <= j < s.len() ==> (#[trigger] hex_value(s[j])) is Some {
        Some(
            Seq::new(
                s.len() / 2,
                |i: int| (hex_value(s[2 * i])->0 * 16 + hex_value(s[2 * i + 1])->0) as u8,
            ),
        )
    } else {
        None
    }
}

fn hex_digit_char(d: u8) -> (c: char)
    requires
        d < 16,
    ensures
        c == hex_digit(d as nat),
{
    if d < 10 {
        if d == 0 {
            '0'
        } else if d == 1 {
            '1'
        } else if d == 2 {
            '2'
        } else if d == 3 {
            '3'
        } else if d == 4 {
            '4'
        } else if d == 5 {
            '5'
        } else if d == 6 {
            '6'
        } else if d == 7 {
            '7'
        } else if d == 8 {
            '8'
        } else {
            '9'
        }
    } else if d == 10 {
        'a'
    } else if d == 11 {
        'b'
    } else if d == 12 {
        'c'
    } else if d == 13 {
        'd'
    } else if d == 14 {
        'e'
    } else {
        'f'
    }
}

fn hex_char_value(c: char) -> (r: Option<u8>)
    ensures
        match hex_value(c) {
            Some(v) => r == Some(v as u8) && v < 16,
            None => r is None,
        },
{
    if '0' <= c && c <= '9' {
        Some((c as u32 - '0' as u32) as u8)
    } else if 'a' <= c && c <= 'f' {
        Some((c as u32 - 'a' as u32 + 10) as u8)
    } else if 'A' <= c && c <= 'F' {
        Some((c as u32 - 'A' as u32 + 10) as u8)
    } else {
        None
    }
}

/// Encodes bytes as lower-case hexadecimal text.
pub fn to_hex(b: &[u8]) -> (r: String)
    ensures
        r@ == hex_text(b@),
{
    let mut s = String::new();
    let mut i: usize = 0;
    while i < b.len()
        invariant
            i <= b@.len(),
            s@ =~= hex_text(b@.subrange(0, i as int)),
        decreases b@.len() - i,
    {
        let x = b[i];
        let ghost prev = s@;
        push_char(&mut s, hex_digit_char(x / 16));
        push_char(&mut s, hex_digit_char(x % 16));
        assert(s@ =~= hex_text(b@.subrange(0, i + 1))) by {
            let sub = b@.subrange(0, i + 1);
            assert forall|j: int| 0 <= j < 2 * i implies s@[j] == hex_text(sub)[j] by {
                assert(j / 2 < i);
                assert(sub[j / 2] == b@.subrange(0, i as int)[j / 2]);
            }
            assert((2 * i) as int / 2 == i);
            assert((2 * i + 1) as int / 2 == i);
        }
        i = i + 1;
    }
    assert(b@.subrange(0, i as int) =~= b@);
    s
}

/// Decodes hexadecimal text (either case); `None` where it is not hexadecimal.
pub fn from_hex(s: &str) -> (r: Option<Vec<u8>>)
    ensures
        match hex_bytes(s@) {
            Some(b) => r matches Some(v) && v@ == b,
            None => r is None,
        },
{
    let n = s.unicode_len();
    if n % 2 != 0 {
        return None;
    }
    let mut out: Vec<u8> = Vec::new();
    let mut i: usize = 0;
    while i < n / 2
        invariant
            n == s@.len(),
            n % 2 == 0,
            i <= n / 2,
            forall|j: int| 0 <= j < 2 * i ==> (#[trigger] hex_value(s@[j])) is Some,
            out@ =~= Seq::new(
                i as nat,
                |k: int| (hex_value(s@[2 * k])->0 * 16 + hex_value(s@[2 * k + 1])->0) as u8,
            ),
        decreases n / 2 - i,
    {
        let hi = hex_char_value(s.get_char(2 * i));
        let lo = hex_char_value(s.get_char(2 * i + 1));
        match (hi, lo) {
            (Some(h), Some(l)) => {
                out.push(h * 16 + l);
                i = i + 1;
            },
            _ => {
                assert(hex_value(s@[2 * i as int]) is None || hex_value(s@[2 * i + 1]) is None);
                return None;
            },
        }
    }
    Some(out)
}

/// Decoding the hexadecimal text of a byte string gives the byte string back.
pub proof fn lemma_hex_round_trip(b: Seq<u8>)
    ensures
        hex_bytes(hex_text(b)) == Some(b),
{
    let t = hex_text(b);
    assert forall|j: int| 0 <= j < t.len() implies (#[trigger] hex_value(t[j])) is Some by {
        if j % 2 == 0 {
            assert(b[j / 2] / 16 < 16);
        } else {
            assert(b[j / 2] % 16 < 16);
        }
    }
    let d = hex_bytes(t)->0;
    assert forall|i: int| 0 <= i < b.len() implies d[i] == b[i] by {
        assert((2 * i) / 2 == i);
        assert((2 * i + 1) / 2 == i);
        assert((2 * i) % 2 == 0);
        assert((2 * i + 1) % 2 == 1);
        let x = b[i];
        assert(hex_value(hex_digit((x / 16) as nat)) == Some((x / 16) as nat));
        assert(hex_value(hex_digit((x % 16) as nat)) == Some((x % 16) as nat));
    }
    assert(d =~= b);
}

} // verus!

use vstd::prelude::*;

verus! {

/// The ASCII code of the lowercase hex digit for a nibble value.
pub open spec fn hex_digit(n: u8) -> u8
    recommends
        n < 16,
{
    if n < 10 {
        (48 + n) as u8
    } else {
        (87 + n) as u8
    }
}

/// Nibble `j` of a 128-bit identifier, counted from the most significant.
pub open spec fn nibble(id: u128, j: int) -> u8
    recommends
        0 <= j < 32,
{
    ((id >> (((31 - j) * 4) as u128)) & 0xf) as u8
}

/// Which nibble stands at position `i` of the hyphenated form, skipping the
/// hyphens at positions 8, 13, 18 and 23.
pub open spec fn nibble_index(i: int) -> int {
    if i < 8 {
        i
    } else if i < 13 {
        i - 1
    } else if i < 18 {
        i - 2
    } else if i < 23 {
        i - 3
    } else {
        i - 4
    }
}

/// The ASCII code at position `i` of the canonical hyphenated form of `id`.
pub open spec fn uuid_byte(id: u128, i: int) -> u8
    recommends
        0 <= i < 36,
{
    if i == 8 || i == 13 || i == 18 || i == 23 {
        45
    } else {
        hex_digit(nibble(id, nibble_index(i)))
    }
}

/// The canonical textual form of a 128-bit identifier: 32 lowercase hex
/// digits in groups of 8-4-4-4-12 separated by hyphens.
pub open spec fn uuid_chars(id: u128) -> Seq<char> {
    Seq::new(36, |i: int| uuid_byte(id, i) as char)
}

/// Relies on `String::from_utf8`: bytes below 128 are valid UTF-8 and decode
/// to the characters with the same code points, one per byte.
#[verifier::external_body]
fn ascii_to_string(bytes: Vec<u8>) -> (s: String)
    requires
        forall|i: int| 0 <= i < bytes@.len() ==> bytes@[i] < 128,
    ensures
        s@.len() == bytes@.len(),
        forall|i: int| 0 <= i < bytes@.len() ==> s@[i] == (bytes@[i] as char),
{
    match String::from_utf8(bytes) {
        Ok(s) => s,
        Err(_) => String::new(),
    }
}

/// Render a 128-bit account identifier in its canonical hyphenated form.
pub fn account_id_string(id: u128) -> (s: String)
    ensures
        s@ == uuid_chars(id),
{
    let mut out: Vec<u8> = Vec::new();
    let mut i: usize = 0;
    while i < 36
        invariant
            i <= 36,
            out@.len() == i,
            forall|k: int| 0 <= k < i ==> out@[k] == uuid_byte(id, k) && out@[k] < 128,
        decreases 36 - i,
    {
        let b: u8 = if i == 8 || i == 13 || i == 18 || i == 23 {
            45
        } else {
            let j: usize = if i < 8 {
                i
            } else if i < 13 {
                i - 1
            } else if i < 18 {
                i - 2
            } else if i < 23 {
                i - 3
            } else {
                i - 4
            };
            let shift: u128 = ((31 - j) * 4) as u128;
            assert((id >> shift) & 0xf < 16) by (bit_vector);
            let nib: u8 = ((id >> shift) & 0xf) as u8;
            if nib < 10 {
                48 + nib
            } else {
                87 + nib
            }
        };
        assert(b == uuid_byte(id, i as int));
        assert(b < 128);
        let ghost pre = out@;
        out.push(b);
        proof {
            assert(out@ =~= pre.push(b));
            assert forall|k: int| 0 <= k < i + 1 implies out@[k] == uuid_byte(id, k) && out@[k]
                < 128 by {
                if k < i {
                    assert(out@[k] == pre[k]);
                } else {
                    assert(out@[k] == b);
                }
            }
        }
        i += 1;
    }
    proof {
        assert forall|k: int| 0 <= k < out@.len() implies out@[k] < 128 by {
            assert(out@[k] == uuid_byte(id, k));
        }
    }
    let s = ascii_to_string(out);
    proof {
        assert(s@ =~= uuid_chars(id));
    }
    s
}

} // verus!

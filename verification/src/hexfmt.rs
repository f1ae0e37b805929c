//! Fixed-width hexadecimal rendering of machine words, used when a handler
//! logs the trapped execution frame.

use vstd::prelude::*;

verus! {

/// ASCII digit for one hex nibble: `0`-`9` then `a`-`f`.
pub open spec fn hex_digit(n: u8) -> u8
    recommends
        n < 16,
{
    if n < 10 {
        ('0' as u8 + n) as u8
    } else {
        ('a' as u8 + (n - 10)) as u8
    }
}

/// The `k`-th nibble of `v`, counting from the least significant.
pub open spec fn nibble(v: u64, k: int) -> u8
    recommends
        0 <= k < 16,
{
    ((v >> (4 * k) as u64) & 0xf) as u8
}

/// The sixteen hex digits of `v`, most significant nibble first.
pub open spec fn hex_bytes(v: u64) -> Seq<u8> {
    Seq::new(16, |i: int| hex_digit(nibble(v, 15 - i)))
}

/// Append the sixteen hex digits of `v` to `out`.
pub fn push_hex_u64(out: &mut Vec<u8>, v: u64)
    ensures
        final(out)@ == old(out)@ + hex_bytes(v),
{
    let ghost prefix = out@;
    let mut i: usize = 0;
    while i < 16
        invariant
            i <= 16,
            out@ == prefix + hex_bytes(v).take(i as int),
        decreases 16 - i,
    {
        let shift: u64 = (60 - 4 * i) as u64;
        let masked: u64 = (v >> shift) & 0xf;
        assert((v >> shift) & 0xf < 16) by (bit_vector);
        let nib: u8 = masked as u8;
        let digit: u8 = if nib < 10 {
            0x30 + nib
        } else {
            0x61 + (nib - 10)
        };
        proof {
            assert(4 * (15 - i as int) == 60 - 4 * i as int);
            assert(nib == nibble(v, 15 - i as int));
            assert(digit == hex_digit(nib));
            assert(hex_bytes(v).take(i as int).push(digit) =~= hex_bytes(v).take(i as int + 1));
            assert((prefix + hex_bytes(v).take(i as int)).push(digit) =~= prefix + hex_bytes(
                v,
            ).take(i as int + 1));
        }
        out.push(digit);
        i = i + 1;
    }
    proof {
        assert(hex_bytes(v).take(16) =~= hex_bytes(v));
    }
}

} // verus!

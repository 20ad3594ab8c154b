//! Byte-level building blocks shared by the frame layouts and the text
//! exporters: little-endian integer images, text fragments and decimals.

use vstd::prelude::*;
use vstd::string::StringSliceAdditionalSpecFns;

verus! {

/// The `n` low bytes of `x`, least significant first.
pub open spec fn le_bytes(x: u64, n: nat) -> Seq<u8> {
    Seq::new(n, |i: int| ((x >> ((8 * i) as u64)) & 0xffu64) as u8)
}

/// Append the `n` low bytes of `x`, least significant first.
pub fn push_le(out: &mut Vec<u8>, x: u64, n: usize)
    requires
        n <= 8,
    ensures
        final(out)@ == old(out)@ + le_bytes(x, n as nat),
{
    let mut i: usize = 0;
    while i < n
        invariant
            i <= n <= 8,
            out@ == old(out)@ + le_bytes(x, n as nat).take(i as int),
        decreases n - i,
    {
        out.push(((x >> ((8 * i) as u64)) & 0xffu64) as u8);
        assert(le_bytes(x, n as nat).take((i + 1) as int) =~= le_bytes(x, n as nat).take(i as int).push(
            ((x >> ((8 * i) as u64)) & 0xffu64) as u8));
        i = i + 1;
    }
    assert(le_bytes(x, n as nat).take(n as int) =~= le_bytes(x, n as nat));
}

/// Bytes of a text fragment.
pub open spec fn txt(s: &str) -> Seq<u8> {
    s.spec_bytes()
}

/// Decimal digits of `n`, as ASCII bytes.
pub open spec fn dec(n: nat) -> Seq<u8>
    decreases n,
{
    if n < 10 {
        seq![(n + 48) as u8]
    } else {
        dec(n / 10).push(((n % 10) + 48) as u8)
    }
}

/// Concatenation of `item(0) .. item(n - 1)`.
pub open spec fn concat_items(n: nat, item: spec_fn(nat) -> Seq<u8>) -> Seq<u8>
    decreases n,
{
    if n == 0 {
        seq![]
    } else {
        concat_items((n - 1) as nat, item) + item((n - 1) as nat)
    }
}

/// Append the bytes of a text fragment.
pub fn push_str(out: &mut Vec<u8>, s: &str)
    ensures
        final(out)@ == old(out)@ + txt(s),
{
    let bytes = s.as_bytes();
    let mut i: usize = 0;
    while i < bytes.len()
        invariant
            i <= bytes@.len(),
            out@ == old(out)@ + bytes@.take(i as int),
        decreases bytes@.len() - i,
    {
        out.push(bytes[i]);
        assert(bytes@.take((i + 1) as int) =~= bytes@.take(i as int).push(bytes@[i as int]));
        i = i + 1;
    }
    assert(bytes@.take(bytes@.len() as int) =~= bytes@);
}

/// Append the decimal digits of `n`.
pub fn push_dec(out: &mut Vec<u8>, n: usize)
    ensures
        final(out)@ == old(out)@ + dec(n as nat),
    decreases n,
{
    if n >= 10 {
        push_dec(out, n / 10);
    }
    out.push((n % 10 + 48) as u8);
    assert(out@ =~= old(out)@ + dec(n as nat));
}

} // verus!

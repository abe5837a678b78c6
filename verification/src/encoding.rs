//! Little-endian integer encodings and the compact length prefix.

use vstd::prelude::*;

verus! {

/// `256^width`: the number of values that `width` bytes can hold.
pub open spec fn radix(width: nat) -> nat
    decreases width,
{
    if width == 0 {
        1
    } else {
        256 * radix((width - 1) as nat)
    }
}

/// The `width` low-order bytes of `x`, least significant first.
pub open spec fn le_bytes(x: nat, width: nat) -> Seq<u8>
    decreases width,
{
    if width == 0 {
        Seq::empty()
    } else {
        seq![(x % 256) as u8] + le_bytes(x / 256, (width - 1) as nat)
    }
}

/// The number that a little-endian byte string stands for.
pub open spec fn le_value(bytes: Seq<u8>) -> nat
    decreases bytes.len(),
{
    if bytes.len() == 0 {
        0
    } else {
        bytes[0] as nat + 256 * le_value(bytes.skip(1))
    }
}

/// A little-endian encoding has exactly as many bytes as asked for.
pub proof fn lemma_le_bytes_len(x: nat, width: nat)
    ensures
        le_bytes(x, width).len() == width,
    decreases width,
{
    if width > 0 {
        lemma_le_bytes_len(x / 256, (width - 1) as nat);
    }
}

/// Decoding an encoding gives the number back whenever it fits the width.
pub proof fn lemma_le_round_trip(x: nat, width: nat)
    requires
        x < radix(width),
    ensures
        le_value(le_bytes(x, width)) == x,
    decreases width,
{
    if width > 0 {
        let rest = le_bytes(x / 256, (width - 1) as nat);
        let all = le_bytes(x, width);
        assert(all.skip(1) =~= rest);
        lemma_le_round_trip(x / 256, (width - 1) as nat);
    }
}

/// Two numbers that fit the width and encode alike are the same number.
pub proof fn lemma_le_bytes_injective(x: nat, y: nat, width: nat)
    requires
        x < radix(width),
        y < radix(width),
        le_bytes(x, width) == le_bytes(y, width),
    ensures
        x == y,
{
    lemma_le_round_trip(x, width);
    lemma_le_round_trip(y, width);
}

/// A 32-bit unsigned value as four little-endian bytes.
pub open spec fn u32_le(x: u32) -> Seq<u8> {
    le_bytes(x as nat, 4)
}

/// A 64-bit unsigned value as eight little-endian bytes.
pub open spec fn u64_le(x: u64) -> Seq<u8> {
    le_bytes(x as nat, 8)
}

/// The unsigned number with the same 32-bit two's complement pattern.
pub open spec fn twos_complement(x: i32) -> nat {
    if x >= 0 {
        x as nat
    } else {
        (x + 0x1_0000_0000) as nat
    }
}

/// A 32-bit signed value as four little-endian bytes in two's complement.
pub open spec fn i32_le(x: i32) -> Seq<u8> {
    le_bytes(twos_complement(x), 4)
}

/// The length prefix of a byte string of `n` bytes: one byte up to 252, else
/// a marker byte followed by the length in two, four or eight bytes.
pub open spec fn compact_size(n: nat) -> Seq<u8> {
    if n <= 0xFC {
        seq![n as u8]
    } else if n <= 0xFFFF {
        seq![0xFDu8] + le_bytes(n, 2)
    } else if n <= 0xFFFF_FFFF {
        seq![0xFEu8] + le_bytes(n, 4)
    } else {
        seq![0xFFu8] + le_bytes(n, 8)
    }
}

/// A byte string behind its length prefix.
pub open spec fn length_prefixed(bytes: Seq<u8>) -> Seq<u8> {
    compact_size(bytes.len()) + bytes
}

/// The values of `radix` at the widths in use.
pub proof fn lemma_radix_values()
    ensures
        radix(1) == 0x100,
        radix(2) == 0x1_0000,
        radix(4) == 0x1_0000_0000,
        radix(8) == 0x1_0000_0000_0000_0000,
{
    reveal_with_fuel(radix, 9);
}

/// A length prefix can be read back off the front of a byte string: where
/// two prefixes, each followed by more bytes, give the same string, the
/// lengths are the same and so is what follows.
pub proof fn lemma_compact_size_unique(n: nat, after_n: Seq<u8>, m: nat, after_m: Seq<u8>)
    requires
        n < radix(8),
        m < radix(8),
        compact_size(n) + after_n == compact_size(m) + after_m,
    ensures
        n == m,
        after_n == after_m,
{
    lemma_radix_values();
    let all = compact_size(n) + after_n;
    let width: nat = if n <= 0xFC {
        0
    } else if n <= 0xFFFF {
        2
    } else if n <= 0xFFFF_FFFF {
        4
    } else {
        8
    };
    let other_width: nat = if m <= 0xFC {
        0
    } else if m <= 0xFFFF {
        2
    } else if m <= 0xFFFF_FFFF {
        4
    } else {
        8
    };
    lemma_le_bytes_len(n, width);
    lemma_le_bytes_len(m, other_width);
    assert(all[0] == compact_size(n)[0]);
    assert(all[0] == compact_size(m)[0]);
    assert(width == other_width);
    if width == 0 {
        assert(n == m);
    } else {
        assert(all.subrange(1, 1 + width as int) =~= le_bytes(n, width));
        assert(all.subrange(1, 1 + width as int) =~= le_bytes(m, width));
        lemma_le_bytes_injective(n, m, width);
    }
    assert(all.subrange(1 + width as int, all.len() as int) =~= after_n);
    assert(all.subrange(1 + width as int, all.len() as int) =~= after_m);
}

/// A prefixed byte string can be read back off the front of a longer one:
/// where two of them, each followed by more bytes, give the same string, they
/// are the same and so is what follows.
pub proof fn lemma_length_prefixed_unique(
    first: Seq<u8>,
    after_first: Seq<u8>,
    second: Seq<u8>,
    after_second: Seq<u8>,
)
    requires
        first.len() < radix(8),
        second.len() < radix(8),
        length_prefixed(first) + after_first == length_prefixed(second) + after_second,
    ensures
        first == second,
        after_first == after_second,
{
    let rest = first + after_first;
    let other_rest = second + after_second;
    assert(length_prefixed(first) + after_first =~= compact_size(first.len()) + rest);
    assert(length_prefixed(second) + after_second =~= compact_size(second.len()) + other_rest);
    lemma_compact_size_unique(first.len(), rest, second.len(), other_rest);
    assert(rest.subrange(0, first.len() as int) =~= first);
    assert(rest.subrange(0, first.len() as int) =~= second);
    assert(rest.subrange(first.len() as int, rest.len() as int) =~= after_first);
    assert(rest.subrange(first.len() as int, rest.len() as int) =~= after_second);
}

/// Appends the `width` low-order bytes of `x`, least significant first.
pub fn push_le(buf: &mut Vec<u8>, x: u64, width: usize)
    ensures
        final(buf)@ == old(buf)@ + le_bytes(x as nat, width as nat),
{
    let mut rest: u64 = x;
    let mut done: usize = 0;
    while done < width
        invariant
            done <= width,
            old(buf)@ + le_bytes(x as nat, width as nat) == buf@ + le_bytes(
                rest as nat,
                (width - done) as nat,
            ),
        decreases width - done,
    {
        let ghost before = buf@;
        let byte: u8 = (rest % 256) as u8;
        buf.push(byte);
        proof {
            let tail = le_bytes((rest / 256) as nat, (width - done - 1) as nat);
            assert(le_bytes(rest as nat, (width - done) as nat) == seq![byte] + tail);
            assert(before + (seq![byte] + tail) =~= before.push(byte) + tail);
        }
        rest = rest / 256;
        done = done + 1;
    }
    assert(buf@ + le_bytes(rest as nat, 0) =~= buf@);
}

/// Appends a 32-bit unsigned value in little-endian order.
pub fn push_u32_le(buf: &mut Vec<u8>, x: u32)
    ensures
        final(buf)@ == old(buf)@ + u32_le(x),
{
    push_le(buf, x as u64, 4);
}

/// Appends a 64-bit unsigned value in little-endian order.
pub fn push_u64_le(buf: &mut Vec<u8>, x: u64)
    ensures
        final(buf)@ == old(buf)@ + u64_le(x),
{
    push_le(buf, x, 8);
}

/// Appends a 32-bit signed value in little-endian two's complement.
pub fn push_i32_le(buf: &mut Vec<u8>, x: i32)
    ensures
        final(buf)@ == old(buf)@ + i32_le(x),
{
    let pattern: u64 = if x >= 0 {
        x as u64
    } else {
        (x as i64 + 0x1_0000_0000) as u64
    };
    push_le(buf, pattern, 4);
}

/// Appends the length prefix of a byte string of `n` bytes.
pub fn push_compact_size(buf: &mut Vec<u8>, n: u64)
    ensures
        final(buf)@ == old(buf)@ + compact_size(n as nat),
{
    let ghost before = buf@;
    if n <= 0xFC {
        buf.push(n as u8);
    } else if n <= 0xFFFF {
        buf.push(0xFD);
        push_le(buf, n, 2);
        assert(before.push(0xFDu8) + le_bytes(n as nat, 2) =~= before + (seq![0xFDu8] + le_bytes(
            n as nat,
            2,
        )));
    } else if n <= 0xFFFF_FFFF {
        buf.push(0xFE);
        push_le(buf, n, 4);
        assert(before.push(0xFEu8) + le_bytes(n as nat, 4) =~= before + (seq![0xFEu8] + le_bytes(
            n as nat,
            4,
        )));
    } else {
        buf.push(0xFF);
        push_le(buf, n, 8);
        assert(before.push(0xFFu8) + le_bytes(n as nat, 8) =~= before + (seq![0xFFu8] + le_bytes(
            n as nat,
            8,
        )));
    }
}

/// Appends a byte string behind its length prefix.
pub fn push_length_prefixed(buf: &mut Vec<u8>, bytes: &[u8])
    ensures
        final(buf)@ == old(buf)@ + length_prefixed(bytes@),
{
    let ghost before = buf@;
    push_compact_size(buf, bytes.len() as u64);
    push_bytes(buf, bytes);
    assert(buf@ =~= before + length_prefixed(bytes@));
}

/// Appends a run of bytes unchanged.
pub fn push_bytes(buf: &mut Vec<u8>, bytes: &[u8])
    ensures
        final(buf)@ == old(buf)@ + bytes@,
{
    let mut at: usize = 0;
    while at < bytes.len()
        invariant
            at <= bytes@.len(),
            buf@ == old(buf)@ + bytes@.take(at as int),
        decreases bytes@.len() - at,
    {
        buf.push(bytes[at]);
        assert(bytes@.take(at + 1) =~= bytes@.take(at as int).push(bytes@[at as int]));
        at = at + 1;
    }
    assert(bytes@.take(at as int) =~= bytes@);
}

} // verus!

//! Single bits of a register byte, read and written by shift and mask and
//! specified by division and remainder.

use crate::PIPES_COUNT;
use vstd::prelude::*;

verus! {

/// The value of bit `n` of a byte, `2^n`.
pub open spec fn weight(n: u8) -> int {
    if n == 0 {
        1
    } else if n == 1 {
        2
    } else if n == 2 {
        4
    } else if n == 3 {
        8
    } else if n == 4 {
        16
    } else if n == 5 {
        32
    } else if n == 6 {
        64
    } else {
        128
    }
}

/// Whether bit `n` of `byte` is set. Bit 0 is the least significant.
pub open spec fn bit_of(byte: u8, n: u8) -> bool {
    if n == 0 {
        byte % 2 == 1
    } else if n == 1 {
        byte / 2 % 2 == 1
    } else if n == 2 {
        byte / 4 % 2 == 1
    } else if n == 3 {
        byte / 8 % 2 == 1
    } else if n == 4 {
        byte / 16 % 2 == 1
    } else if n == 5 {
        byte / 32 % 2 == 1
    } else if n == 6 {
        byte / 64 % 2 == 1
    } else {
        byte / 128 % 2 == 1
    }
}

/// `byte` with bit `n` set to `on` and every other bit as it was.
pub open spec fn with_bit(byte: u8, n: u8, on: bool) -> u8 {
    if bit_of(byte, n) == on {
        byte
    } else if on {
        (byte + weight(n)) as u8
    } else {
        (byte - weight(n)) as u8
    }
}

/// Reads bit `n` of `byte`.
pub fn get_bit(byte: u8, n: u8) -> (on: bool)
    requires
        n < 8,
    ensures
        on == bit_of(byte, n),
{
    assert(((byte >> n) & 1u8 == 1u8) == bit_of(byte, n)) by (bit_vector)
        requires
            n < 8,
    ;
    (byte >> n) & 1 == 1
}

/// Writes bit `n` of `byte`.
pub fn set_bit(byte: u8, n: u8, on: bool) -> (changed: u8)
    requires
        n < 8,
    ensures
        changed == with_bit(byte, n, on),
{
    if on {
        assert((byte | (1u8 << n)) == with_bit(byte, n, true)) by (bit_vector)
            requires
                n < 8,
        ;
        byte | (1u8 << n)
    } else {
        assert((byte & !(1u8 << n)) == with_bit(byte, n, false)) by (bit_vector)
            requires
                n < 8,
        ;
        byte & !(1u8 << n)
    }
}

/// Writing a bit is read back at that bit and leaves the other bits alone.
pub proof fn lemma_with_bit(byte: u8, n: u8, on: bool, m: u8)
    by (bit_vector)
    requires
        n < 8,
        m < 8,
    ensures
        bit_of(with_bit(byte, n, on), m) == (if m == n {
            on
        } else {
            bit_of(byte, m)
        }),
{
}

/// What bit `n` of `byte` adds to its value: the bit's weight if it is set.
pub open spec fn share(byte: u8, n: u8) -> int {
    if bit_of(byte, n) {
        weight(n)
    } else {
        0
    }
}

/// A byte is the sum of the weights of its set bits.
pub proof fn lemma_sum_of_bits(byte: u8)
    by (bit_vector)
    ensures
        byte == share(byte, 0) + share(byte, 1) + share(byte, 2) + share(byte, 3) + share(byte, 4)
            + share(byte, 5) + share(byte, 6) + share(byte, 7),
{
}

/// The byte that holds one flag per pipe: pipe `i` in bit `i`, the two high
/// bits clear.
pub open spec fn packed(flags: Seq<bool>) -> u8 {
    ((if flags[0] { 1int } else { 0int }) + (if flags[1] { 2int } else { 0int })
        + (if flags[2] { 4int } else { 0int }) + (if flags[3] { 8int } else { 0int })
        + (if flags[4] { 16int } else { 0int }) + (if flags[5] { 32int } else { 0int })) as u8
}

/// The six per-pipe flags that the low bits of `byte` hold.
pub open spec fn unpacked(byte: u8) -> Seq<bool> {
    Seq::new(6, |i: int| bit_of(byte, i as u8))
}

/// Packs six per-pipe flags into a byte.
pub fn pack(flags: &[bool; PIPES_COUNT]) -> (byte: u8)
    ensures
        byte == packed(flags@),
{
    let mut byte: u8 = 0;
    let mut i: u8 = 0;
    while i < 6
        invariant
            i <= 6,
            forall|m: u8| m < 8 ==> #[trigger] bit_of(byte, m) == (m < i && flags@[m as int]),
        decreases 6 - i,
    {
        let ghost before = byte;
        byte = set_bit(byte, i, flags[i as usize]);
        proof {
            assert forall|m: u8| m < 8 implies #[trigger] bit_of(byte, m) == (m < i + 1
                && flags@[m as int]) by {
                lemma_with_bit(before, i, flags@[i as int], m);
            }
        }
        i += 1;
    }
    proof {
        lemma_sum_of_bits(byte);
    }
    byte
}

/// Unpacks the six per-pipe flags of a byte.
pub fn unpack(byte: u8) -> (flags: [bool; PIPES_COUNT])
    ensures
        flags@ == unpacked(byte),
{
    let mut flags = [false;PIPES_COUNT];
    let mut i: u8 = 0;
    while i < 6
        invariant
            i <= 6,
            forall|m: int| 0 <= m < i ==> flags@[m] == bit_of(byte, m as u8),
        decreases 6 - i,
    {
        flags[i as usize] = get_bit(byte, i);
        i += 1;
    }
    flags
}

/// Packing six flags and unpacking the byte gives the flags back.
pub proof fn lemma_unpack_packed(flags: Seq<bool>)
    requires
        flags.len() == 6,
    ensures
        unpacked(packed(flags)) == flags,
{
    assert(unpacked(packed(flags)) =~= flags);
}

} // verus!

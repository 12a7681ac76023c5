//! Case-insensitive 32-bit fingerprints of narrow and wide names.

use vstd::prelude::*;

verus! {

/// Initial value of the accumulator.
pub const SEED: u32 = 0x811c9dc5;

/// Multiplier applied after each byte is folded in.
pub const PRIME: u32 = 0x01000193;

/// Upper-case form of an ASCII byte; every other byte is itself.
pub open spec fn upper(b: u8) -> u8 {
    if 0x61 <= b <= 0x7a {
        (b - 0x20) as u8
    } else {
        b
    }
}

/// One step of the accumulator: exclusive-or with the upper-cased byte, then a
/// multiplication by `PRIME` that keeps the low 32 bits.
pub open spec fn fold_byte(acc: u32, b: u8) -> u32 {
    (((acc ^ (upper(b) as u32)) as nat * PRIME as nat) % 0x1_0000_0000) as u32
}

/// Fingerprint of a byte sequence: the bytes folded in from first to last,
/// starting from `SEED`.
pub open spec fn fingerprint(s: Seq<u8>) -> u32
    decreases s.len(),
{
    if s.len() == 0 {
        SEED
    } else {
        fold_byte(fingerprint(s.drop_last()), s.last())
    }
}

/// Low byte of a 16-bit code unit.
pub open spec fn low_byte(c: u16) -> u8 {
    (c & 0xff) as u8
}

/// High byte of a 16-bit code unit.
pub open spec fn high_byte(c: u16) -> u8 {
    ((c >> 8) & 0xff) as u8
}

/// The bytes of a wide sequence: for each code unit its low byte, then its
/// high byte.
pub open spec fn wide_bytes(w: Seq<u16>) -> Seq<u8> {
    Seq::new(
        2 * w.len(),
        |i: int|
            if i % 2 == 0 {
                low_byte(w[i / 2])
            } else {
                high_byte(w[i / 2])
            },
    )
}

/// Fingerprint of a wide sequence: each code unit folds in its low byte, then
/// its high byte.
pub open spec fn fingerprint_wide(w: Seq<u16>) -> u32
    decreases w.len(),
{
    if w.len() == 0 {
        SEED
    } else {
        fold_byte(
            fold_byte(fingerprint_wide(w.drop_last()), low_byte(w.last())),
            high_byte(w.last()),
        )
    }
}

/// The sequence with every byte upper-cased.
pub open spec fn upper_seq(s: Seq<u8>) -> Seq<u8> {
    Seq::new(s.len(), |i: int| upper(s[i]))
}

/// Two sequences of one length whose bytes agree up to case have the same
/// fingerprint.
pub proof fn lemma_fingerprint_ignores_case(a: Seq<u8>, b: Seq<u8>)
    requires
        a.len() == b.len(),
        forall|i: int| 0 <= i < a.len() ==> upper(a[i]) == upper(b[i]),
    ensures
        fingerprint(a) == fingerprint(b),
    decreases a.len(),
{
    if a.len() > 0 {
        lemma_fingerprint_ignores_case(a.drop_last(), b.drop_last());
        assert(upper(a.last()) == upper(b.last()));
    }
}

/// A name and its upper-case form have the same fingerprint.
pub proof fn lemma_fingerprint_of_upper(s: Seq<u8>)
    ensures
        fingerprint(upper_seq(s)) == fingerprint(s),
{
    lemma_fingerprint_ignores_case(upper_seq(s), s);
}

/// The wide fingerprint is the narrow fingerprint of the low-byte, high-byte
/// decomposition of the code units.
pub proof fn lemma_wide_is_bytes(w: Seq<u16>)
    ensures
        fingerprint_wide(w) == fingerprint(wide_bytes(w)),
    decreases w.len(),
{
    if w.len() > 0 {
        let prev = w.drop_last();
        lemma_wide_is_bytes(prev);
        let two = wide_bytes(w);
        let one = two.drop_last();
        assert(one.drop_last() =~= wide_bytes(prev));
        assert(one.last() == low_byte(w.last()));
        assert(two.last() == high_byte(w.last()));
        assert(fingerprint(one) == fold_byte(fingerprint(one.drop_last()), one.last()));
    }
}

/// Upper-cases one ASCII byte.
pub fn ascii_upper(b: u8) -> (r: u8)
    ensures
        r == upper(b),
{
    if 0x61 <= b && b <= 0x7a {
        b - 0x20
    } else {
        b
    }
}

/// Folds one byte into the accumulator.
pub fn fold(acc: u32, b: u8) -> (r: u32)
    ensures
        r == fold_byte(acc, b),
{
    let x: u32 = acc ^ (ascii_upper(b) as u32);
    x.wrapping_mul(PRIME)
}

/// Fingerprint of a narrow name.
pub fn calc_checksum(input: &[u8]) -> (sum: u32)
    ensures
        sum == fingerprint(input@),
{
    let mut sum: u32 = SEED;
    let mut i: usize = 0;
    while i < input.len()
        invariant
            i <= input.len(),
            sum == fingerprint(input@.take(i as int)),
        decreases input.len() - i,
    {
        proof {
            let next = input@.take(i + 1);
            assert(next.drop_last() =~= input@.take(i as int));
            assert(next.last() == input@[i as int]);
        }
        sum = fold(sum, input[i]);
        i += 1;
    }
    proof {
        assert(input@.take(i as int) =~= input@);
    }
    sum
}

/// Fingerprint of a wide name: each code unit contributes its low byte, then
/// its high byte.
pub fn calc_wide_checksum(wide_str: &[u16]) -> (sum: u32)
    ensures
        sum == fingerprint_wide(wide_str@),
        sum == fingerprint(wide_bytes(wide_str@)),
{
    let mut sum: u32 = SEED;
    let mut i: usize = 0;
    while i < wide_str.len()
        invariant
            i <= wide_str.len(),
            sum == fingerprint_wide(wide_str@.take(i as int)),
        decreases wide_str.len() - i,
    {
        let c: u16 = wide_str[i];
        assert(c & 0xff <= 0xff && (c >> 8) & 0xff <= 0xff) by (bit_vector);
        let lo: u8 = (c & 0xff) as u8;
        let hi: u8 = ((c >> 8) & 0xff) as u8;
        proof {
            let next = wide_str@.take(i + 1);
            assert(next.drop_last() =~= wide_str@.take(i as int));
            assert(next.last() == c);
        }
        sum = fold(sum, lo);
        sum = fold(sum, hi);
        i += 1;
    }
    proof {
        assert(wide_str@.take(i as int) =~= wide_str@);
        lemma_wide_is_bytes(wide_str@);
    }
    sum
}

} // verus!

//! The blob cipher: keystream generation, word decryption and the
//! quarter-block deshuffle applied to a single creature record.
//!
//! A record blob is 136 bytes when stored in a box and 236 bytes when stored
//! in the party. Its first 8 bytes are a plain header: the 32-bit identity
//! value, a 16-bit flags word and the 16-bit checksum. The remaining 16-bit
//! words are XORed with a keystream drawn from a linear-congruential
//! generator seeded by the checksum, and the first four 16-word quarters of
//! the result are reordered by a permutation selected by bits 13–17 of the
//! identity value. Words beyond the four quarters (the battle-stat appendage
//! of a party blob) are kept in their original order.

use vstd::prelude::*;
use crate::reader::{le16_at, le32_at, read_le16, read_le32};

verus! {

/// Multiplier of the linear-congruential generator.
pub const LCG_MUL: u32 = 0x41C6_4E6D;

/// Increment of the linear-congruential generator.
pub const LCG_ADD: u32 = 0x0000_6073;

/// Length of a blob stored in a storage box.
pub const BOX_BLOB_LEN: usize = 136;

/// Length of a blob stored in the party, with the battle-stat appendage.
pub const PARTY_BLOB_LEN: usize = 236;

/// The two record sizes the cipher accepts.
pub open spec fn is_blob_len(n: int) -> bool {
    n == BOX_BLOB_LEN || n == PARTY_BLOB_LEN
}

/// One step of the linear-congruential generator, modulo 2^32.
pub open spec fn lcg_next(state: u32) -> u32 {
    (((state as int) * (LCG_MUL as int) + LCG_ADD as int) % 0x1_0000_0000) as u32
}

/// The generator state after `k` steps from `seed`.
pub open spec fn lcg_iter(seed: u32, k: int) -> u32
    decreases k,
{
    if k <= 0 {
        seed
    } else {
        lcg_next(lcg_iter(seed, k - 1))
    }
}

/// The `i`-th 16-bit keystream word: the upper half of the generator state
/// after `i + 1` steps from the seed.
pub open spec fn keystream_word(seed: u32, i: int) -> u16 {
    (lcg_iter(seed, i + 1) >> 16) as u16
}

/// The permutation row selected by a 5-bit shift value: the order in which
/// the four quarters of the decrypted body are emitted. Rows 24–31
/// deliberately repeat rows 0–7, so that every 5-bit value selects a row
/// without a bounds check or a modulus.
#[verifier::opaque]
pub open spec fn quarter_row(shift: int) -> (int, int, int, int) {
    if shift == 0 {
        (0, 1, 2, 3)
    } else if shift == 1 {
        (0, 1, 3, 2)
    } else if shift == 2 {
        (0, 2, 1, 3)
    } else if shift == 3 {
        (0, 3, 1, 2)
    } else if shift == 4 {
        (0, 2, 3, 1)
    } else if shift == 5 {
        (0, 3, 2, 1)
    } else if shift == 6 {
        (1, 0, 2, 3)
    } else if shift == 7 {
        (1, 0, 3, 2)
    } else if shift == 8 {
        (2, 0, 1, 3)
    } else if shift == 9 {
        (3, 0, 1, 2)
    } else if shift == 10 {
        (2, 0, 3, 1)
    } else if shift == 11 {
        (3, 0, 2, 1)
    } else if shift == 12 {
        (1, 2, 0, 3)
    } else if shift == 13 {
        (1, 3, 0, 2)
    } else if shift == 14 {
        (2, 1, 0, 3)
    } else if shift == 15 {
        (3, 1, 0, 2)
    } else if shift == 16 {
        (2, 3, 0, 1)
    } else if shift == 17 {
        (3, 2, 0, 1)
    } else if shift == 18 {
        (1, 2, 3, 0)
    } else if shift == 19 {
        (1, 3, 2, 0)
    } else if shift == 20 {
        (2, 1, 3, 0)
    } else if shift == 21 {
        (3, 1, 2, 0)
    } else if shift == 22 {
        (2, 3, 1, 0)
    } else if shift == 23 {
        (3, 2, 1, 0)
    } else if shift == 24 {
        (0, 1, 2, 3)
    } else if shift == 25 {
        (0, 1, 3, 2)
    } else if shift == 26 {
        (0, 2, 1, 3)
    } else if shift == 27 {
        (0, 3, 1, 2)
    } else if shift == 28 {
        (0, 2, 3, 1)
    } else if shift == 29 {
        (0, 3, 2, 1)
    } else if shift == 30 {
        (1, 0, 2, 3)
    } else {
        (1, 0, 3, 2)
    }
}

/// The quarter emitted in position `k` for a given shift value.
pub open spec fn quarter(shift: int, k: int) -> int {
    let row = quarter_row(shift);
    if k == 0 {
        row.0
    } else if k == 1 {
        row.1
    } else if k == 2 {
        row.2
    } else {
        row.3
    }
}

/// The position in which quarter `j` is emitted: the inverse of `quarter`.
pub open spec fn inv_quarter(shift: int, j: int) -> int {
    if quarter(shift, 0) == j {
        0
    } else if quarter(shift, 1) == j {
        1
    } else if quarter(shift, 2) == j {
        2
    } else {
        3
    }
}

/// The 5-bit shuffle selector carried in bits 13–17 of the identity value,
/// which occupies the first four bytes of a blob.
pub open spec fn blob_shift(s: Seq<u8>) -> int {
    ((le32_at(s, 0) >> 13) & 31) as int
}

/// The cipher seed: the 16-bit checksum stored at offset 6 of a blob.
pub open spec fn blob_seed(s: Seq<u8>) -> u32 {
    le16_at(s, 6) as u32
}

/// The 16-bit words of a blob's body, after the 8-byte header, in stored
/// order.
pub open spec fn blob_words(s: Seq<u8>) -> Seq<u16> {
    Seq::new((((s.len() - 8) / 2) as nat), |i: int| le16_at(s, 8 + 2 * i))
}

/// The body words after the keystream XOR, still in stored order.
pub open spec fn decrypted_words(s: Seq<u8>) -> Seq<u16> {
    Seq::new(
        (((s.len() - 8) / 2) as nat),
        |i: int| blob_words(s)[i] ^ keystream_word(blob_seed(s), i),
    )
}

/// Reorders the first four 16-word quarters of `words`: the quarter emitted
/// in position `k` is quarter `quarter(shift, k)` of the input. Words beyond
/// the four quarters keep their place.
pub open spec fn deshuffled(words: Seq<u16>, shift: int) -> Seq<u16> {
    Seq::new(
        words.len(),
        |i: int|
            if i < 64 {
                words[16 * quarter(shift, i / 16) + (i % 16)]
            } else {
                words[i]
            },
    )
}

/// The forward shuffle: places quarter `k` of `words` where the deshuffle
/// will look for it, so that `deshuffled` undoes it.
pub open spec fn shuffled(words: Seq<u16>, shift: int) -> Seq<u16> {
    Seq::new(
        words.len(),
        |i: int|
            if i < 64 {
                words[16 * inv_quarter(shift, i / 16) + (i % 16)]
            } else {
                words[i]
            },
    )
}

/// A word sequence re-serialized as little-endian bytes.
pub open spec fn words_to_bytes(ws: Seq<u16>) -> Seq<u8> {
    Seq::new(
        (2 * ws.len()) as nat,
        |i: int|
            if i % 2 == 0 {
                (ws[i / 2] & 0xFF) as u8
            } else {
                (ws[i / 2] >> 8) as u8
            },
    )
}

/// What the blob cipher produces: the 8 header bytes unchanged, then the
/// body words XORed with the keystream and their quarters deshuffled.
pub open spec fn spec_decrypt(s: Seq<u8>) -> Seq<u8> {
    s.subrange(0, 8) + words_to_bytes(deshuffled(decrypted_words(s), blob_shift(s)))
}

/// The encryption of a plaintext blob: the body words are shuffled forward
/// and XORed with the keystream, under the same unchanged header.
pub open spec fn spec_encrypt(s: Seq<u8>) -> Seq<u8> {
    s.subrange(0, 8) + words_to_bytes(
        Seq::new(
            (((s.len() - 8) / 2) as nat),
            |i: int| shuffled(blob_words(s), blob_shift(s))[i] ^ keystream_word(blob_seed(s), i),
        ),
    )
}

/// Advances the generator state by one step.
pub fn lcg_step(state: u32) -> (next: u32)
    ensures
        next == lcg_next(state),
{
    proof {
        assert((state as u64) * (LCG_MUL as u64) + (LCG_ADD as u64) <= 0xFFFF_FFFFu64
            * 0x41C6_4E6D + 0x6073) by (nonlinear_arith);
    }
    let wide: u64 = (state as u64) * (LCG_MUL as u64) + (LCG_ADD as u64);
    (wide % 0x1_0000_0000) as u32
}

/// The first `count` keystream words for `seed`.
pub fn keystream(seed: u16, count: usize) -> (words: Vec<u16>)
    ensures
        words@.len() == count,
        forall|i: int| 0 <= i < count ==> words@[i] == keystream_word(seed as u32, i),
{
    let mut words: Vec<u16> = Vec::new();
    let mut state: u32 = seed as u32;
    let mut i: usize = 0;
    while i < count
        invariant
            i <= count,
            words@.len() == i,
            state == lcg_iter(seed as u32, i as int),
            forall|j: int| 0 <= j < i ==> words@[j] == keystream_word(seed as u32, j),
        decreases count - i,
    {
        state = lcg_step(state);
        words.push((state >> 16) as u16);
        i = i + 1;
    }
    words
}

/// The emission order of the four quarters for a shift value: position `k`
/// of the output takes quarter `quarter(shift, k)` of the input.
pub fn quarter_of(shift: u32, k: usize) -> (q: usize)
    requires
        shift < 32,
        k < 4,
    ensures
        q as int == quarter(shift as int, k as int),
        q < 4,
{
    let row: (u8, u8, u8, u8) = match shift {
        0 => (0, 1, 2, 3),
        1 => (0, 1, 3, 2),
        2 => (0, 2, 1, 3),
        3 => (0, 3, 1, 2),
        4 => (0, 2, 3, 1),
        5 => (0, 3, 2, 1),
        6 => (1, 0, 2, 3),
        7 => (1, 0, 3, 2),
        8 => (2, 0, 1, 3),
        9 => (3, 0, 1, 2),
        10 => (2, 0, 3, 1),
        11 => (3, 0, 2, 1),
        12 => (1, 2, 0, 3),
        13 => (1, 3, 0, 2),
        14 => (2, 1, 0, 3),
        15 => (3, 1, 0, 2),
        16 => (2, 3, 0, 1),
        17 => (3, 2, 0, 1),
        18 => (1, 2, 3, 0),
        19 => (1, 3, 2, 0),
        20 => (2, 1, 3, 0),
        21 => (3, 1, 2, 0),
        22 => (2, 3, 1, 0),
        23 => (3, 2, 1, 0),
        24 => (0, 1, 2, 3),
        25 => (0, 1, 3, 2),
        26 => (0, 2, 1, 3),
        27 => (0, 3, 1, 2),
        28 => (0, 2, 3, 1),
        29 => (0, 3, 2, 1),
        30 => (1, 0, 2, 3),
        _ => (1, 0, 3, 2),
    };
    proof {
        reveal(quarter_row);
    }
    let q: u8 = match k {
        0 => row.0,
        1 => row.1,
        2 => row.2,
        _ => row.3,
    };
    q as usize
}

/// The position in which quarter `j` is emitted, computed by searching the
/// emission order.
pub fn inv_quarter_of(shift: u32, j: usize) -> (k: usize)
    requires
        shift < 32,
        j < 4,
    ensures
        k as int == inv_quarter(shift as int, j as int),
        k < 4,
{
    if quarter_of(shift, 0) == j {
        0
    } else if quarter_of(shift, 1) == j {
        1
    } else if quarter_of(shift, 2) == j {
        2
    } else {
        3
    }
}

/// Every shift value emits each quarter exactly where `quarter` says, and
/// `inv_quarter` finds it there again.
pub proof fn lemma_quarter_inverse(shift: int, k: int)
    requires
        0 <= shift < 32,
        0 <= k < 4,
    ensures
        0 <= quarter(shift, k) < 4,
        inv_quarter(shift, quarter(shift, k)) == k,
{
    reveal(quarter_row);
}

/// The emitted quarter order is a permutation of the four quarters for every
/// 5-bit shift value, and rows 24–31 of the table repeat rows 0–7.
pub proof fn lemma_shuffle_coverage(shift: int)
    requires
        0 <= shift < 32,
    ensures
        forall|k: int| 0 <= k < 4 ==> 0 <= #[trigger] quarter(shift, k) < 4,
        forall|k1: int, k2: int|
            0 <= k1 < 4 && 0 <= k2 < 4 && k1 != k2 ==> quarter(shift, k1) != quarter(shift, k2),
        shift >= 24 ==> forall|k: int| 0 <= k < 4 ==> quarter(shift, k) == quarter(shift - 24, k),
{
    reveal(quarter_row);
}

/// Appends the little-endian serialization of `ws` to `out`.
fn push_words_le(out: &mut Vec<u8>, ws: &Vec<u16>)
    requires
        old(out)@.len() + 2 * ws@.len() <= usize::MAX,
    ensures
        final(out)@ == old(out)@ + words_to_bytes(ws@),
{
    let ghost base = out@;
    let n = ws.len();
    let mut i: usize = 0;
    while i < n
        invariant
            i <= n,
            n == ws@.len(),
            base.len() + 2 * n <= usize::MAX,
            out@.len() == base.len() + 2 * i,
            out@.subrange(0, base.len() as int) == base,
            forall|j: int|
                0 <= j < 2 * i ==> out@[base.len() + j] == words_to_bytes(ws@)[j],
        decreases n - i,
    {
        let w = ws[i];
        out.push((w & 0xFF) as u8);
        out.push((w >> 8) as u8);
        i = i + 1;
        proof {
            assert(out@.subrange(0, base.len() as int) =~= base);
        }
    }
    proof {
        assert(out@ =~= base + words_to_bytes(ws@));
    }
}

/// Decrypts one creature record: the header is kept, the body words are
/// XORed with the checksum-seeded keystream, and the four quarters are
/// deshuffled by the permutation selected by the identity value.
///
/// The output has exactly the length of the input. No checksum is verified:
/// a corrupted blob decrypts silently to garbage.
pub fn decrypt_pokemon_blob(blob: &Vec<u8>) -> (out: Vec<u8>)
    requires
        is_blob_len(blob@.len() as int),
    ensures
        out@ == spec_decrypt(blob@),
        out@.len() == blob@.len(),
{
    let n_words: usize = (blob.len() - 8) / 2;
    let pv = read_le32(blob, 0);
    let seed: u32 = read_le16(blob, 6) as u32;
    let shift: u32 = (pv >> 13) & 31;
    proof {
        assert((pv >> 13) & 31 < 32) by (bit_vector);
    }
    let mut dec: Vec<u16> = Vec::new();
    let mut state: u32 = seed;
    let mut i: usize = 0;
    while i < n_words
        invariant
            i <= n_words,
            n_words == (blob@.len() - 8) / 2,
            is_blob_len(blob@.len() as int),
            seed == blob_seed(blob@),
            dec@.len() == i,
            state == lcg_iter(seed, i as int),
            forall|j: int| 0 <= j < i ==> dec@[j] == decrypted_words(blob@)[j],
        decreases n_words - i,
    {
        state = lcg_step(state);
        let w = read_le16(blob, 8 + 2 * i);
        dec.push(w ^ ((state >> 16) as u16));
        i = i + 1;
    }
    proof {
        assert(dec@ =~= decrypted_words(blob@));
    }
    let mut out_words: Vec<u16> = Vec::new();
    let mut k: usize = 0;
    while k < 4
        invariant
            k <= 4,
            shift < 32,
            shift as int == blob_shift(blob@),
            dec@ == decrypted_words(blob@),
            dec@.len() == (blob@.len() - 8) / 2,
            is_blob_len(blob@.len() as int),
            out_words@.len() == 16 * k,
            forall|j: int|
                0 <= j < 16 * k ==> out_words@[j] == deshuffled(dec@, shift as int)[j],
        decreases 4 - k,
    {
        let q = quarter_of(shift, k);
        let mut t: usize = 0;
        while t < 16
            invariant
                t <= 16,
                k < 4,
                shift < 32,
                shift as int == blob_shift(blob@),
                q as int == quarter(shift as int, k as int),
                q < 4,
                dec@ == decrypted_words(blob@),
                dec@.len() == (blob@.len() - 8) / 2,
                is_blob_len(blob@.len() as int),
                out_words@.len() == 16 * k + t,
                forall|j: int|
                    0 <= j < 16 * k + t ==> out_words@[j] == deshuffled(dec@, shift as int)[j],
            decreases 16 - t,
        {
            proof {
                assert((16 * k + t) as int / 16 == k as int && (16 * k + t) as int % 16
                    == t as int) by (nonlinear_arith)
                    requires
                        0 <= t < 16,
                        0 <= k < 4,
                ;
            }
            out_words.push(dec[16 * q + t]);
            t = t + 1;
        }
        k = k + 1;
    }
    let mut i: usize = 64;
    while i < n_words
        invariant
            64 <= i <= n_words || (n_words <= 64 && i == 64),
            n_words == (blob@.len() - 8) / 2,
            is_blob_len(blob@.len() as int),
            shift as int == blob_shift(blob@),
            dec@ == decrypted_words(blob@),
            dec@.len() == n_words,
            out_words@.len() == i || (n_words <= 64 && out_words@.len() == 64),
            out_words@.len() == if i <= n_words { i as int } else { 64int },
            forall|j: int|
                0 <= j < out_words@.len() ==> out_words@[j] == deshuffled(dec@, shift as int)[j],
        decreases if i < n_words { n_words - i } else { 0 },
    {
        out_words.push(dec[i]);
        i = i + 1;
    }
    proof {
        assert(out_words@ =~= deshuffled(decrypted_words(blob@), blob_shift(blob@)));
    }
    let mut out: Vec<u8> = Vec::new();
    let mut j: usize = 0;
    while j < 8
        invariant
            j <= 8,
            is_blob_len(blob@.len() as int),
            out@.len() == j,
            forall|i2: int| 0 <= i2 < j ==> out@[i2] == blob@[i2],
        decreases 8 - j,
    {
        out.push(blob[j]);
        j = j + 1;
    }
    proof {
        assert(out@ =~= blob@.subrange(0, 8));
    }
    push_words_le(&mut out, &out_words);
    proof {
        assert(out@ =~= spec_decrypt(blob@));
        assert(2 * ((blob@.len() - 8) / 2) == blob@.len() - 8);
    }
    out
}

/// Encrypts a plaintext record so that [`decrypt_pokemon_blob`] restores it:
/// the body quarters are shuffled forward and XORed with the same keystream,
/// under the unchanged header.
pub fn encrypt_pokemon_blob(blob: &Vec<u8>) -> (out: Vec<u8>)
    requires
        is_blob_len(blob@.len() as int),
    ensures
        out@ == spec_encrypt(blob@),
        out@.len() == blob@.len(),
{
    let n_words: usize = (blob.len() - 8) / 2;
    let pv = read_le32(blob, 0);
    let seed: u32 = read_le16(blob, 6) as u32;
    let shift: u32 = (pv >> 13) & 31;
    proof {
        assert((pv >> 13) & 31 < 32) by (bit_vector);
    }
    let mut pw: Vec<u16> = Vec::new();
    let mut i: usize = 0;
    while i < n_words
        invariant
            i <= n_words,
            n_words == (blob@.len() - 8) / 2,
            is_blob_len(blob@.len() as int),
            pw@.len() == i,
            forall|j: int| 0 <= j < i ==> pw@[j] == blob_words(blob@)[j],
        decreases n_words - i,
    {
        pw.push(read_le16(blob, 8 + 2 * i));
        i = i + 1;
    }
    proof {
        assert(pw@ =~= blob_words(blob@));
    }
    let mut sw: Vec<u16> = Vec::new();
    let mut k: usize = 0;
    while k < 4
        invariant
            k <= 4,
            shift < 32,
            shift as int == blob_shift(blob@),
            pw@ == blob_words(blob@),
            pw@.len() == (blob@.len() - 8) / 2,
            is_blob_len(blob@.len() as int),
            sw@.len() == 16 * k,
            forall|j: int| 0 <= j < 16 * k ==> sw@[j] == shuffled(pw@, shift as int)[j],
        decreases 4 - k,
    {
        let q = inv_quarter_of(shift, k);
        let mut t: usize = 0;
        while t < 16
            invariant
                t <= 16,
                k < 4,
                shift < 32,
                shift as int == blob_shift(blob@),
                q as int == inv_quarter(shift as int, k as int),
                q < 4,
                pw@ == blob_words(blob@),
                pw@.len() == (blob@.len() - 8) / 2,
                is_blob_len(blob@.len() as int),
                sw@.len() == 16 * k + t,
                forall|j: int| 0 <= j < 16 * k + t ==> sw@[j] == shuffled(pw@, shift as int)[j],
            decreases 16 - t,
        {
            proof {
                assert((16 * k + t) as int / 16 == k as int && (16 * k + t) as int % 16
                    == t as int) by (nonlinear_arith)
                    requires
                        0 <= t < 16,
                        0 <= k < 4,
                ;
            }
            sw.push(pw[16 * q + t]);
            t = t + 1;
        }
        k = k + 1;
    }
    let mut i: usize = 64;
    while i < n_words
        invariant
            64 <= i <= n_words || (n_words <= 64 && i == 64),
            n_words == (blob@.len() - 8) / 2,
            is_blob_len(blob@.len() as int),
            shift as int == blob_shift(blob@),
            pw@ == blob_words(blob@),
            pw@.len() == n_words,
            sw@.len() == if i <= n_words { i as int } else { 64int },
            forall|j: int| 0 <= j < sw@.len() ==> sw@[j] == shuffled(pw@, shift as int)[j],
        decreases if i < n_words { n_words - i } else { 0 },
    {
        sw.push(pw[i]);
        i = i + 1;
    }
    proof {
        assert(sw@ =~= shuffled(blob_words(blob@), blob_shift(blob@)));
    }
    let mut ew: Vec<u16> = Vec::new();
    let mut state: u32 = seed;
    let mut i: usize = 0;
    while i < n_words
        invariant
            i <= n_words,
            n_words == (blob@.len() - 8) / 2,
            is_blob_len(blob@.len() as int),
            seed == blob_seed(blob@),
            shift as int == blob_shift(blob@),
            sw@ == shuffled(blob_words(blob@), blob_shift(blob@)),
            sw@.len() == n_words,
            ew@.len() == i,
            state == lcg_iter(seed, i as int),
            forall|j: int|
                0 <= j < i ==> ew@[j] == (shuffled(blob_words(blob@), blob_shift(blob@))[j]
                    ^ keystream_word(blob_seed(blob@), j)),
        decreases n_words - i,
    {
        state = lcg_step(state);
        ew.push(sw[i] ^ ((state >> 16) as u16));
        i = i + 1;
    }
    let mut out: Vec<u8> = Vec::new();
    let mut j: usize = 0;
    while j < 8
        invariant
            j <= 8,
            is_blob_len(blob@.len() as int),
            out@.len() == j,
            forall|i2: int| 0 <= i2 < j ==> out@[i2] == blob@[i2],
        decreases 8 - j,
    {
        out.push(blob[j]);
        j = j + 1;
    }
    proof {
        assert(out@ =~= blob@.subrange(0, 8));
    }
    push_words_le(&mut out, &ew);
    proof {
        assert(ew@ =~= Seq::new(
            (((blob@.len() - 8) / 2) as nat),
            |i: int|
                shuffled(blob_words(blob@), blob_shift(blob@))[i] ^ keystream_word(
                    blob_seed(blob@),
                    i,
                ),
        ));
        assert(out@ =~= spec_encrypt(blob@));
        assert(2 * ((blob@.len() - 8) / 2) == blob@.len() - 8);
    }
    out
}

/// A 16-bit word survives serialization to two little-endian bytes.
proof fn lemma_word_roundtrip(w: u16)
    by (bit_vector)
    ensures
        (((w & 0xFF) as u8) as u16) | ((((w >> 8) as u8) as u16) << 8) == w,
{
}

/// The two little-endian bytes of a word read back as themselves.
proof fn lemma_le16_bytes(b0: u8, b1: u8)
    by (bit_vector)
    ensures
        ((((b0 as u16) | ((b1 as u16) << 8)) & 0xFF) as u8) == b0,
        ((((b0 as u16) | ((b1 as u16) << 8)) >> 8) as u8) == b1,
{
}

/// XOR with the same word twice gives the original back.
proof fn lemma_xor_cancel(a: u16, b: u16)
    by (bit_vector)
    ensures
        (a ^ b) ^ b == a,
{
}

/// The deshuffle undoes the forward shuffle on any word sequence long
/// enough to hold the four quarters.
proof fn lemma_shuffle_inverse(ws: Seq<u16>, shift: int)
    requires
        0 <= shift < 32,
        ws.len() >= 64,
    ensures
        deshuffled(shuffled(ws, shift), shift) =~= ws,
{
    let sh = shuffled(ws, shift);
    assert forall|i: int| 0 <= i < ws.len() implies deshuffled(sh, shift)[i] == ws[i] by {
        if i < 64 {
            let k = i / 16;
            let t = i % 16;
            assert(0 <= k < 4 && 0 <= t < 16);
            lemma_quarter_inverse(shift, k);
            let q = quarter(shift, k);
            let j = 16 * q + t;
            assert(j / 16 == q && j % 16 == t) by (nonlinear_arith)
                requires
                    0 <= q < 4,
                    0 <= t < 16,
                    j == 16 * q + t,
            ;
            assert(0 <= j < 64);
            assert(deshuffled(sh, shift)[i] == sh[j]);
            assert(sh[j] == ws[16 * inv_quarter(shift, q) + t]);
            assert(16 * inv_quarter(shift, q) + t == 16 * k + t);
            assert(16 * k + t == i);
        }
    }
}

/// Round-trip cipher identity: decrypting an encrypted plaintext blob
/// reproduces the plaintext exactly, for both record sizes, whatever the
/// identity value and checksum in its header.
/// Reading body words back from a header plus a word serialization gives
/// the words themselves.
proof fn lemma_words_read_back(prefix: Seq<u8>, ws: Seq<u16>)
    requires
        prefix.len() == 8,
    ensures
        blob_words(prefix + words_to_bytes(ws)) =~= ws,
{
    let e = prefix + words_to_bytes(ws);
    let n = ws.len() as int;
    assert(e.len() == 8 + 2 * n);
    assert forall|i: int| 0 <= i < n implies blob_words(e)[i] == ws[i] by {
        assert(e[8 + 2 * i] == words_to_bytes(ws)[2 * i]);
        assert(e[8 + 2 * i + 1] == words_to_bytes(ws)[2 * i + 1]);
        assert((2 * i) % 2 == 0 && (2 * i) / 2 == i);
        assert((2 * i + 1) % 2 == 1 && (2 * i + 1) / 2 == i);
        lemma_word_roundtrip(ws[i]);
    }
}

/// A blob is its own header plus the serialization of its body words.
proof fn lemma_blob_reassemble(s: Seq<u8>)
    requires
        s.len() >= 8,
        s.len() % 2 == 0,
    ensures
        s.subrange(0, 8) + words_to_bytes(blob_words(s)) =~= s,
{
    let pw = blob_words(s);
    let n = (s.len() - 8) / 2;
    assert(2 * n == s.len() - 8);
    assert forall|j: int| 0 <= j < 2 * n implies words_to_bytes(pw)[j] == s[8 + j] by {
        let i = j / 2;
        assert(pw[i] == le16_at(s, 8 + 2 * i));
        lemma_le16_bytes(s[8 + 2 * i], s[8 + 2 * i + 1]);
        if j % 2 == 0 {
            assert(j == 2 * i);
        } else {
            assert(j == 2 * i + 1);
        }
    }
}

/// The encrypted blob carries the same header, so the cipher re-derives the
/// same shift, the same seed, and body words equal to the encrypted words.
proof fn lemma_encrypt_header(p: Seq<u8>)
    requires
        is_blob_len(p.len() as int),
    ensures
        spec_encrypt(p).len() == p.len(),
        spec_encrypt(p).subrange(0, 8) =~= p.subrange(0, 8),
        blob_shift(spec_encrypt(p)) == blob_shift(p),
        blob_seed(spec_encrypt(p)) == blob_seed(p),
{
    let n = (p.len() - 8) / 2;
    let e = spec_encrypt(p);
    assert(e.len() == 8 + 2 * n);
    assert forall|i: int| 0 <= i < 8 implies e[i] == p[i] by {
        assert(e[i] == p.subrange(0, 8)[i]);
    }
}

/// Round-trip cipher identity: decrypting an encrypted plaintext blob
/// reproduces the plaintext exactly, for both record sizes, whatever the
/// identity value and checksum in its header.
#[verifier::rlimit(60)]
#[verifier::spinoff_prover]
pub proof fn lemma_cipher_round_trip(p: Seq<u8>)
    requires
        is_blob_len(p.len() as int),
    ensures
        spec_decrypt(spec_encrypt(p)) == p,
{
    let n = (p.len() - 8) / 2;
    let e = spec_encrypt(p);
    let pw = blob_words(p);
    let shift = blob_shift(p);
    let seed = blob_seed(p);
    let ew = Seq::new(
        n as nat,
        |i: int| shuffled(pw, shift)[i] ^ keystream_word(seed, i),
    );
    lemma_encrypt_header(p);
    lemma_words_read_back(p.subrange(0, 8), ew);
    assert(blob_words(e) =~= ew);
    let pv = le32_at(p, 0);
    assert((pv >> 13) & 31 < 32) by (bit_vector);
    assert(0 <= shift < 32);
    assert forall|i: int| 0 <= i < n implies decrypted_words(e)[i] == shuffled(pw, shift)[i] by {
        assert(blob_words(e)[i] == ew[i]);
        lemma_xor_cancel(shuffled(pw, shift)[i], keystream_word(seed, i));
    }
    assert(decrypted_words(e) =~= shuffled(pw, shift));
    lemma_shuffle_inverse(pw, shift);
    assert(deshuffled(decrypted_words(e), shift) =~= deshuffled(shuffled(pw, shift), shift));
    assert(deshuffled(decrypted_words(e), shift) =~= pw);
    lemma_blob_reassemble(p);
    assert(spec_decrypt(e) =~= p);
}

} // verus!

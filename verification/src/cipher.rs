//! Fixed-block obfuscation cipher.
//!
//! A 128-byte buffer is read as 32 little-endian 32-bit words and transformed
//! in place over six Feistel-like rounds with a 4-word key schedule. The
//! transform exists to defeat naive fixed-signature packet inspection, not to
//! resist a competent adversary. Buffers shorter than 128 bytes are left
//! untouched; the encoder zero-pads to exactly 128 bytes before calling it.

use vstd::prelude::*;
use crate::protocol::u32_le;

verus! {

/// Additive round-key increment.
pub const CIPHER_DELTA: u32 = 0x9E3779B9;

/// The word built from four little-endian bytes starting at `4 * i`.
pub open spec fn word_of(b: Seq<u8>, i: int) -> u32 {
    (b[4 * i] + b[4 * i + 1] * 0x100 + b[4 * i + 2] * 0x10000 + b[4 * i + 3] * 0x1000000) as u32
}

/// The 32 words of a 128-byte block.
pub open spec fn words_of(b: Seq<u8>) -> Seq<u32> {
    Seq::new(32, |i: int| word_of(b, i))
}

/// One word of the key schedule: little-endian words of the key bytes,
/// zero where the key has no complete 4-byte group left.
pub open spec fn key_word_of(k: Seq<u8>, j: int) -> u32 {
    if 4 * j + 4 <= k.len() {
        word_of(k, j)
    } else {
        0
    }
}

/// The 4-word key schedule.
pub open spec fn key_words(k: Seq<u8>) -> Seq<u32> {
    Seq::new(4, |j: int| key_word_of(k, j))
}

/// The little-endian bytes of the first `n` words.
pub open spec fn bytes_of_words(w: Seq<u32>, n: int) -> Seq<u8>
    decreases n,
{
    if n <= 0 {
        Seq::empty()
    } else {
        bytes_of_words(w, n - 1) + u32_le(w[n - 1])
    }
}

/// The word-mixing core: combines the neighbouring words, the round sum and
/// one key word, with wraparound additions.
pub open spec fn mix(sum: u32, prev: u32, next: u32, k: u32) -> u32 {
    (((prev >> 5) ^ (next << 2)).wrapping_add((next >> 3) ^ (prev << 4))) ^ ((sum
        ^ next).wrapping_add(k ^ prev))
}

/// Which key-schedule word position `pu` selects under round sum `sum`.
pub open spec fn key_index(pu: u32, sum: u32) -> int {
    ((pu & 3) ^ ((sum >> 2) & 3)) as int
}

/// One word update at position `p`: the word absorbs the mix of its already
/// updated left neighbour and its not yet updated right neighbour (the block
/// is treated as a ring).
pub open spec fn cipher_step(v: Seq<u32>, k: Seq<u32>, sum: u32, p: int) -> Seq<u32> {
    let prev = if p == 0 { v[31] } else { v[p - 1] };
    let next = if p == 31 { v[0] } else { v[p + 1] };
    v.update(p, v[p].wrapping_add(mix(sum, prev, next, k[key_index(p as u32, sum)])))
}

/// The block after the first `p` word updates of one round.
pub open spec fn steps_to(v: Seq<u32>, k: Seq<u32>, sum: u32, p: int) -> Seq<u32>
    decreases p,
{
    if p <= 0 {
        v
    } else {
        cipher_step(steps_to(v, k, sum, p - 1), k, sum, p - 1)
    }
}

/// One full round: all 32 words updated in order under round sum `sum`.
pub open spec fn cipher_round(v: Seq<u32>, k: Seq<u32>, sum: u32) -> Seq<u32> {
    steps_to(v, k, sum, 32)
}

/// The round sum after `r` rounds: `r` wraparound additions of the delta.
pub open spec fn round_sum(r: int) -> u32
    decreases r,
{
    if r <= 0 {
        0
    } else {
        round_sum(r - 1).wrapping_add(CIPHER_DELTA)
    }
}

/// The block after `r` full rounds.
pub open spec fn cipher_rounds(v: Seq<u32>, k: Seq<u32>, r: int) -> Seq<u32>
    decreases r,
{
    if r <= 0 {
        v
    } else {
        cipher_round(cipher_rounds(v, k, r - 1), k, round_sum(r))
    }
}

/// What the cipher leaves in the buffer: the first 128 bytes transformed over
/// six rounds, anything beyond them untouched; a buffer shorter than one
/// block is left as it is.
pub open spec fn cipher_output(data: Seq<u8>, key: Seq<u8>) -> Seq<u8> {
    if data.len() < 128 {
        data
    } else {
        bytes_of_words(cipher_rounds(words_of(data), key_words(key), 6), 32) + data.skip(128)
    }
}

/// The little-endian bytes of `n` words are `4 * n` bytes.
pub proof fn lemma_bytes_of_words_len(w: Seq<u32>, n: int)
    requires
        n >= 0,
    ensures
        bytes_of_words(w, n).len() == 4 * n,
    decreases n,
{
    if n > 0 {
        lemma_bytes_of_words_len(w, n - 1);
    }
}

/// The cipher never changes the buffer's length.
pub proof fn lemma_cipher_output_len(data: Seq<u8>, key: Seq<u8>)
    ensures
        cipher_output(data, key).len() == data.len(),
{
    if data.len() >= 128 {
        lemma_bytes_of_words_len(cipher_rounds(words_of(data), key_words(key), 6), 32);
    }
}

/// The transform is a function of the buffer and key alone: equal inputs give
/// equal outputs, in every call.
pub proof fn lemma_cipher_deterministic(d1: Seq<u8>, k1: Seq<u8>, d2: Seq<u8>, k2: Seq<u8>)
    requires
        d1 == d2,
        k1 == k2,
    ensures
        cipher_output(d1, k1) == cipher_output(d2, k2),
{
}

/// Encrypts `data` in place. Buffers shorter than 128 bytes are left
/// untouched; otherwise the first 128 bytes are replaced by the ciphered
/// block and the rest is unchanged. Keys shorter than 16 bytes are
/// zero-padded; longer keys are read up to 16 bytes.
pub fn xxtea_encrypt(data: &mut Vec<u8>, key: &Vec<u8>)
    ensures
        final(data)@ == cipher_output(old(data)@, key@),
{
    let ghost data0: Seq<u8> = data@;
    if data.len() < 128 {
        return ;
    }
    // Read the 32 block words.
    let mut v: Vec<u32> = Vec::new();
    let mut i: usize = 0;
    while i < 32
        invariant
            i <= 32,
            data@ == data0,
            data@.len() >= 128,
            v@.len() == i,
            forall|j: int| 0 <= j < i ==> v@[j] == word_of(data0, j),
        decreases 32 - i,
    {
        let w: u32 = data[4 * i] as u32 + data[4 * i + 1] as u32 * 0x100 + data[4 * i + 2] as u32
            * 0x10000 + data[4 * i + 3] as u32 * 0x1000000;
        v.push(w);
        i = i + 1;
    }
    assert(v@ =~= words_of(data0));
    // Build the 4-word key schedule.
    let mut k: Vec<u32> = Vec::new();
    let mut j: usize = 0;
    while j < 4
        invariant
            j <= 4,
            k@.len() == j,
            forall|t: int| 0 <= t < j ==> k@[t] == key_word_of(key@, t),
        decreases 4 - j,
    {
        let w: u32 = if 4 * j + 4 <= key.len() {
            key[4 * j] as u32 + key[4 * j + 1] as u32 * 0x100 + key[4 * j + 2] as u32 * 0x10000
                + key[4 * j + 3] as u32 * 0x1000000
        } else {
            0
        };
        k.push(w);
        j = j + 1;
    }
    assert(k@ =~= key_words(key@));
    let ghost v0: Seq<u32> = v@;
    let ghost kw: Seq<u32> = k@;
    // Six rounds over the ring of words.
    let mut sum: u32 = 0;
    let mut round: usize = 0;
    while round < 6
        invariant
            round <= 6,
            data@ == data0,
            k@ == kw,
            kw.len() == 4,
            v@.len() == 32,
            sum == round_sum(round as int),
            v@ == cipher_rounds(v0, kw, round as int),
        decreases 6 - round,
    {
        sum = sum.wrapping_add(CIPHER_DELTA);
        assert(sum == round_sum(round + 1));
        let e: u32 = (sum >> 2) & 3;
        let ghost vr: Seq<u32> = v@;
        let mut p: usize = 0;
        while p < 32
            invariant
                p <= 32,
                data@ == data0,
                k@ == kw,
                kw.len() == 4,
                v@.len() == 32,
                e == (sum >> 2) & 3,
                v@ == steps_to(vr, kw, sum, p as int),
            decreases 32 - p,
        {
            let prev: u32 = if p == 0 { v[31] } else { v[p - 1] };
            let next: u32 = if p == 31 { v[0] } else { v[p + 1] };
            let pu: u32 = p as u32;
            let idx: u32 = (pu & 3) ^ e;
            assert((pu & 3) ^ ((sum >> 2) & 3) < 4) by (bit_vector);
            let kk: u32 = k[idx as usize];
            let t1: u32 = (prev >> 5) ^ (next << 2);
            let t2: u32 = (next >> 3) ^ (prev << 4);
            let t3: u32 = sum ^ next;
            let t4: u32 = kk ^ prev;
            let val: u32 = t1.wrapping_add(t2) ^ t3.wrapping_add(t4);
            let cur: u32 = v[p];
            v.set(p, cur.wrapping_add(val));
            proof {
                assert(idx == key_index(pu, sum));
                assert(v@ =~= cipher_step(steps_to(vr, kw, sum, p as int), kw, sum, p as int));
                assert(v@ == steps_to(vr, kw, sum, p + 1));
            }
            p = p + 1;
        }
        assert(v@ == cipher_round(vr, kw, sum));
        round = round + 1;
        assert(v@ == cipher_rounds(v0, kw, round as int));
    }
    // Write the words back, little-endian.
    let ghost wfin: Seq<u32> = v@;
    let mut t: usize = 0;
    while t < 32
        invariant
            t <= 32,
            v@ == wfin,
            wfin.len() == 32,
            data@.len() == data0.len(),
            data0.len() >= 128,
            data@ =~= bytes_of_words(wfin, t as int) + data0.skip(4 * t as int),
        decreases 32 - t,
    {
        let w: u32 = v[t];
        data.set(4 * t, (w % 0x100) as u8);
        data.set(4 * t + 1, ((w / 0x100) % 0x100) as u8);
        data.set(4 * t + 2, ((w / 0x10000) % 0x100) as u8);
        data.set(4 * t + 3, ((w / 0x1000000) % 0x100) as u8);
        proof {
            assert(data@ =~= bytes_of_words(wfin, t + 1) + data0.skip(4 * (t + 1)));
        }
        t = t + 1;
    }
    assert(data@ =~= bytes_of_words(wfin, 32) + data0.skip(128));
}

} // verus!

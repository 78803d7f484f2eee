//! The keyed byte-stream cipher of the local container format.
//!
//! The key schedule is the usual RC4 one; the byte generator differs from
//! textbook RC4: the byte at position `k` depends on `k` and the scheduled
//! box alone, so the box is never permuted after the key schedule.
use vstd::arithmetic::div_mod::lemma_add_mod_noop;
use vstd::prelude::*;

verus! {

/// `s` with the entries at `i` and `j` exchanged.
pub open spec fn swap_spec(s: Seq<u8>, i: int, j: int) -> Seq<u8> {
    s.update(i, s[j]).update(j, s[i])
}

/// The identity permutation of the 256 byte values.
pub open spec fn identity_box() -> Seq<u8> {
    Seq::new(256, |i: int| i as u8)
}

/// The box and the running index after the first `n` rounds of the key schedule.
pub open spec fn ksa_rounds(key: Seq<u8>, n: nat) -> (Seq<u8>, int)
    recommends
        0 < key.len(),
        n <= 256,
    decreases n,
{
    if n == 0 {
        (identity_box(), 0)
    } else {
        let (s, j) = ksa_rounds(key, (n - 1) as nat);
        let i = n - 1;
        let j2 = (j + s[i] as int + key[i % (key.len() as int)] as int) % 256;
        (swap_spec(s, i, j2), j2)
    }
}

/// The box that the key schedule derives from `key`.
pub open spec fn ksa(key: Seq<u8>) -> Seq<u8> {
    ksa_rounds(key, 256).0
}

/// The byte of the key stream at position `k` of a chunk.
pub open spec fn keystream_byte(sbox: Seq<u8>, k: int) -> u8
    recommends
        sbox.len() == 256,
{
    let i = (k + 1) % 256;
    let j = (sbox[i] as int + i) % 256;
    sbox[(sbox[i] as int + sbox[j] as int) % 256]
}

/// `data` XORed with the key stream of `sbox`, position by position.
pub open spec fn apply_keystream(sbox: Seq<u8>, data: Seq<u8>) -> Seq<u8> {
    apply_keystream_at(sbox, 0, data)
}

/// `data` XORed with the key stream of `sbox` from position `start` on.
pub open spec fn apply_keystream_at(sbox: Seq<u8>, start: int, data: Seq<u8>) -> Seq<u8> {
    Seq::new(data.len(), |k: int| data[k] ^ keystream_byte(sbox, start + k))
}

proof fn lemma_ksa_rounds_len(key: Seq<u8>, n: nat)
    requires
        0 < key.len(),
        n <= 256,
    ensures
        ksa_rounds(key, n).0.len() == 256,
        0 <= ksa_rounds(key, n).1 < 256,
    decreases n,
{
    if n > 0 {
        lemma_ksa_rounds_len(key, (n - 1) as nat);
    }
}

/// The cipher state: the box that the key schedule produced.
pub struct RC4 {
    ksa_box: [u8; 256],
}

impl View for RC4 {
    type V = Seq<u8>;

    closed spec fn view(&self) -> Seq<u8> {
        self.ksa_box@
    }
}

impl RC4 {
    /// Runs the key schedule on `key`, which holds 1 to 256 bytes.
    pub fn new(key: &[u8]) -> (r: Self)
        requires
            1 <= key@.len() <= 256,
        ensures
            r@ == ksa(key@),
    {
        RC4 { ksa_box: gen_ksa(key) }
    }

    /// XORs `data` in place with the key stream. Applying it to a ciphertext
    /// yields the plaintext and the other way round.
    pub fn prga(&self, data: &mut [u8])
        ensures
            final(data)@ == apply_keystream(self@, old(data)@),
    {
        let n = data.len();
        let mut k: usize = 0;
        while k < n
            invariant
                n == data@.len(),
                k <= n,
                self@.len() == 256,
                forall|m: int| 0 <= m < k ==> data@[m] == old(data)@[m] ^ keystream_byte(self@, m),
                forall|m: int| k <= m < n ==> data@[m] == old(data)@[m],
                data@.len() == old(data)@.len(),
            decreases n - k,
        {
            let kp: usize = k + 1;
            let i: usize = kp & 0xFF;
            assert(i == kp % 256) by (bit_vector)
                requires
                    i == kp & 0xFF,
            ;
            let a: usize = self.ksa_box[i] as usize;
            let ai: usize = a + i;
            let j: usize = ai & 0xFF;
            assert(j == ai % 256) by (bit_vector)
                requires
                    j == ai & 0xFF,
            ;
            let b: usize = self.ksa_box[j] as usize;
            let ab: usize = a + b;
            let idx: usize = ab & 0xFF;
            assert(idx == ab % 256) by (bit_vector)
                requires
                    idx == ab & 0xFF,
            ;
            let x = data[k] ^ self.ksa_box[idx];
            data[k] = x;
            k = k + 1;
        }
        assert(data@ =~= apply_keystream(self@, old(data)@));
    }
}

impl RC4 {
    /// XORs `data` in place with the key stream from position `start` on:
    /// the byte at index `k` meets the key-stream byte of position `start + k`.
    pub fn prga_at(&self, start: u64, data: &mut [u8])
        ensures
            final(data)@ == apply_keystream_at(self@, start as int, old(data)@),
    {
        let n = data.len();
        let s0: usize = (start % 256) as usize;
        let mut k: usize = 0;
        while k < n
            invariant
                n == data@.len(),
                k <= n,
                s0 == start % 256,
                self@.len() == 256,
                forall|m: int|
                    0 <= m < k ==> data@[m] == old(data)@[m] ^ keystream_byte(self@, start + m),
                forall|m: int| k <= m < n ==> data@[m] == old(data)@[m],
                data@.len() == old(data)@.len(),
            decreases n - k,
        {
            let kp: usize = k + 1;
            let k1: usize = kp & 0xFF;
            assert(k1 == kp % 256) by (bit_vector)
                requires
                    k1 == kp & 0xFF,
            ;
            let t: usize = s0 + k1;
            let i: usize = t & 0xFF;
            assert(i == t % 256) by (bit_vector)
                requires
                    i == t & 0xFF,
            ;
            proof {
                lemma_add_mod_noop(start as int, kp as int, 256);
            }
            let a: usize = self.ksa_box[i] as usize;
            let ai: usize = a + i;
            let j: usize = ai & 0xFF;
            assert(j == ai % 256) by (bit_vector)
                requires
                    j == ai & 0xFF,
            ;
            let b: usize = self.ksa_box[j] as usize;
            let ab: usize = a + b;
            let idx: usize = ab & 0xFF;
            assert(idx == ab % 256) by (bit_vector)
                requires
                    idx == ab & 0xFF,
            ;
            let x = data[k] ^ self.ksa_box[idx];
            data[k] = x;
            k = k + 1;
        }
        assert(data@ =~= apply_keystream_at(self@, start as int, old(data)@));
    }
}

/// The key schedule: the identity box permuted by 256 key-driven swaps,
/// the key repeated cyclically.
fn gen_ksa(key: &[u8]) -> (r: [u8; 256])
    requires
        1 <= key@.len() <= 256,
    ensures
        r@ == ksa(key@),
{
    let mut ksa_box = [0u8; 256];
    let mut i: usize = 0;
    while i < 256
        invariant
            i <= 256,
            ksa_box@.len() == 256,
            forall|m: int| 0 <= m < i ==> ksa_box@[m] == m as u8,
        decreases 256 - i,
    {
        ksa_box[i] = i as u8;
        i = i + 1;
    }
    assert(ksa_box@ =~= identity_box());
    let klen = key.len();
    let mut j: usize = 0;
    let mut i: usize = 0;
    while i < 256
        invariant
            i <= 256,
            klen == key@.len(),
            1 <= klen <= 256,
            ksa_box@.len() == 256,
            (ksa_box@, j as int) == ksa_rounds(key@, i as nat),
            j < 256,
        decreases 256 - i,
    {
        proof {
            lemma_ksa_rounds_len(key@, i as nat);
        }
        let s: usize = j + ksa_box[i] as usize + key[i % klen] as usize;
        let j2: usize = s & 0xFF;
        assert(j2 == s % 256) by (bit_vector)
            requires
                j2 == s & 0xFF,
        ;
        let t = ksa_box[i];
        let u = ksa_box[j2];
        ksa_box[i] = u;
        ksa_box[j2] = t;
        j = j2;
        i = i + 1;
        proof {
            assert(ksa_box@ =~= swap_spec(ksa_rounds(key@, (i - 1) as nat).0, (i - 1) as int, j2 as int));
        }
    }
    ksa_box
}

/// Applying the key stream twice gives the buffer back: the same operation
/// encrypts and decrypts.
pub proof fn lemma_prga_round_trip(key: Seq<u8>, data: Seq<u8>)
    requires
        1 <= key.len() <= 256,
    ensures
        apply_keystream(ksa(key), apply_keystream(ksa(key), data)) == data,
{
    let s = ksa(key);
    let once = apply_keystream(s, data);
    let twice = apply_keystream(s, once);
    assert forall|k: int| 0 <= k < data.len() implies twice[k] == data[k] by {
        let a = data[k];
        let b = keystream_byte(s, k);
        assert((a ^ b) ^ b == a) by (bit_vector);
    }
    assert(twice =~= data);
}

} // verus!

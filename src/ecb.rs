//! AES-128 in ECB mode with PKCS#7 padding, built block by block on the
//! AES block function.
use crate::primitives::{
    aes128_decrypt_block, aes128_decrypt_block_of, aes128_encrypt_block, aes128_encrypt_block_of,
};
use vstd::prelude::*;
use vstd::slice::slice_to_vec;

verus! {

/// PKCS#7 padding to a whole number of 16-byte blocks: 1 to 16 bytes, each
/// holding the count of bytes added.
pub open spec fn pkcs7_pad(data: Seq<u8>) -> Seq<u8> {
    let add = 16 - data.len() % 16;
    data + Seq::new(add as nat, |i: int| add as u8)
}

/// Removes the padding that the last byte announces. Input shorter than a
/// block is kept; a count that is not below the length leaves nothing.
pub open spec fn pkcs7_unpad(p: Seq<u8>) -> Seq<u8> {
    if p.len() < 16 {
        p
    } else if p.len() > p.last() as int {
        p.take(p.len() - p.last() as int)
    } else {
        Seq::empty()
    }
}

/// The block function (forward or inverse) applied to each 16-byte block of `data`.
pub open spec fn ecb_blocks(key: Seq<u8>, data: Seq<u8>, encrypt: bool) -> Seq<u8>
    decreases data.len(),
{
    if data.len() < 16 {
        Seq::empty()
    } else {
        let n = data.len() - 16;
        let block = data.subrange(n, data.len() as int);
        ecb_blocks(key, data.take(n), encrypt) + if encrypt {
            aes128_encrypt_block_of(key, block)
        } else {
            aes128_decrypt_block_of(key, block)
        }
    }
}

/// ECB encryption: the padded input, block by block.
pub open spec fn ecb_encrypt_spec(key: Seq<u8>, data: Seq<u8>) -> Seq<u8> {
    ecb_blocks(key, pkcs7_pad(data), true)
}

/// ECB decryption: empty where the input is not a whole number of blocks,
/// else the decrypted blocks with their padding removed.
pub open spec fn ecb_decrypt_spec(key: Seq<u8>, data: Seq<u8>) -> Seq<u8> {
    if data.len() % 16 != 0 {
        Seq::empty()
    } else {
        pkcs7_unpad(ecb_blocks(key, data, false))
    }
}

proof fn lemma_unpad_pad(data: Seq<u8>)
    ensures
        pkcs7_unpad(pkcs7_pad(data)) == data,
        pkcs7_pad(data).len() % 16 == 0,
{
    let p = pkcs7_pad(data);
    let add = 16 - data.len() % 16;
    assert(p.last() == add as u8);
    assert(p.take(p.len() - add) =~= data);
}

fn pkcs7_pad_vec(data: &[u8]) -> (r: Vec<u8>)
    ensures
        r@ == pkcs7_pad(data@),
{
    let add: usize = 16 - data.len() % 16;
    let mut v = slice_to_vec(data);
    let mut k: usize = 0;
    while k < add
        invariant
            k <= add,
            add == 16 - data@.len() % 16,
            v@ == data@ + Seq::new(k as nat, |i: int| add as u8),
        decreases add - k,
    {
        v.push(add as u8);
        k = k + 1;
        assert(v@ =~= data@ + Seq::new(k as nat, |i: int| add as u8));
    }
    v
}

/// ECB-encrypts `data` under `key` after PKCS#7 padding; decrypting the
/// result gives `data` back.
pub fn ecb_encrypt(key: &[u8; 16], data: &[u8]) -> (r: Vec<u8>)
    ensures
        r@ == ecb_encrypt_spec(key@, data@),
        r@.len() == 16 * (data@.len() / 16 + 1),
        ecb_decrypt_spec(key@, r@) == data@,
{
    let padded = pkcs7_pad_vec(data);
    proof {
        lemma_unpad_pad(data@);
    }
    let nblocks = padded.len() / 16;
    let mut out: Vec<u8> = Vec::new();
    let mut i: usize = 0;
    while i < nblocks
        invariant
            i <= nblocks,
            16 * nblocks == padded@.len(),
            padded@.len() <= usize::MAX,
            out@.len() == 16 * i,
            out@ == ecb_blocks(key@, padded@.take(16 * i), true),
            ecb_blocks(key@, out@, false) == padded@.take(16 * i),
        decreases nblocks - i,
    {
        assert(16 * i + 16 <= 16 * nblocks) by (nonlinear_arith)
            requires
                i < nblocks,
        ;
        let block = &padded.as_slice()[16 * i..16 * i + 16];
        let mut enc = aes128_encrypt_block(key, block);
        let ghost prev = out@;
        out.append(&mut enc);
        i = i + 1;
        proof {
            let s = padded@.take(16 * i);
            assert(s.take(16 * (i - 1)) =~= padded@.take(16 * (i - 1)));
            assert(s.subrange(16 * (i - 1), 16 * i) =~= block@);
            assert(out@.take(16 * (i - 1)) =~= prev);
            assert(out@.subrange(16 * (i - 1), 16 * i) =~= aes128_encrypt_block_of(key@, block@));
            assert(padded@.take(16 * (i - 1)) + block@ =~= s);
        }
    }
    assert(padded@.take(16 * nblocks) =~= padded@);
    assert(padded@.len() == 16 * (data@.len() / 16 + 1));
    out
}

/// ECB-decrypts `data` under `key` and strips the PKCS#7 padding; input that
/// is not a whole number of blocks gives an empty result.
pub fn ecb_decrypt(key: &[u8; 16], data: &[u8]) -> (r: Vec<u8>)
    ensures
        r@ == ecb_decrypt_spec(key@, data@),
{
    if data.len() % 16 != 0 {
        return Vec::new();
    }
    let nblocks = data.len() / 16;
    let mut out: Vec<u8> = Vec::new();
    let mut i: usize = 0;
    while i < nblocks
        invariant
            i <= nblocks,
            16 * nblocks == data@.len(),
            data@.len() <= usize::MAX,
            out@.len() == 16 * i,
            out@ == ecb_blocks(key@, data@.take(16 * i), false),
        decreases nblocks - i,
    {
        assert(16 * i + 16 <= 16 * nblocks) by (nonlinear_arith)
            requires
                i < nblocks,
        ;
        let block = &data[16 * i..16 * i + 16];
        let mut dec = aes128_decrypt_block(key, block);
        out.append(&mut dec);
        i = i + 1;
        proof {
            let s = data@.take(16 * i);
            assert(s.take(16 * (i - 1)) =~= data@.take(16 * (i - 1)));
            assert(s.subrange(16 * (i - 1), 16 * i) =~= block@);
        }
    }
    assert(data@.take(16 * nblocks) =~= data@);
    let sz = out.len();
    if sz >= 16 {
        let added = out[sz - 1] as usize;
        let keep: usize = if sz > added {
            sz - added
        } else {
            0
        };
        out.truncate(keep);
    }
    out
}

} // verus!

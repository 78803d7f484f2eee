//! The encrypted local audio container: a fixed header that carries the
//! stream-cipher key and JSON metadata (both wrapped in AES-128-ECB), an
//! embedded cover image, and the audio bytes under the stream cipher.
//!
//! Header layout: a 10-byte magic; a little-endian `u32` length and the key
//! blob; a `u32` length and the metadata blob; a 4-byte checksum; a 5-byte
//! gap; a `u32` image size and the image. The audio starts after the image.
use crate::ecb::{ecb_decrypt, ecb_decrypt_spec};
use crate::primitives::{base64_decode, base64_decoded_of, le_u32, read_u32_le};
use crate::rc4::{apply_keystream_at, ksa, RC4};
use vstd::prelude::*;
use vstd::slice::slice_to_vec;

verus! {

/// The magic that opens every container.
pub open spec fn ncm_magic() -> Seq<u8> {
    seq![0x43u8, 0x54, 0x45, 0x4E, 0x46, 0x44, 0x41, 0x4D, 0x01, 0x70]
}

/// The AES key that wraps the stream-cipher key.
pub open spec fn core_key_spec() -> Seq<u8> {
    seq![
        0x68u8, 0x7A, 0x48, 0x52, 0x41, 0x6D, 0x73, 0x6F, 0x35, 0x6B, 0x49, 0x6E, 0x62, 0x61, 0x78,
        0x57,
    ]
}

/// The AES key that wraps the metadata.
pub open spec fn meta_key_spec() -> Seq<u8> {
    seq![
        0x23u8, 0x31, 0x34, 0x6C, 0x6A, 0x6B, 0x5F, 0x21, 0x5C, 0x5D, 0x26, 0x30, 0x55, 0x3C, 0x27,
        0x28,
    ]
}

fn core_key() -> (r: [u8; 16])
    ensures
        r@ == core_key_spec(),
{
    let r = [
        0x68u8, 0x7A, 0x48, 0x52, 0x41, 0x6D, 0x73, 0x6F, 0x35, 0x6B, 0x49, 0x6E, 0x62, 0x61, 0x78,
        0x57,
    ];
    assert(r@ =~= core_key_spec());
    r
}

fn meta_key() -> (r: [u8; 16])
    ensures
        r@ == meta_key_spec(),
{
    let r = [
        0x23u8, 0x31, 0x34, 0x6C, 0x6A, 0x6B, 0x5F, 0x21, 0x5C, 0x5D, 0x26, 0x30, 0x55, 0x3C, 0x27,
        0x28,
    ];
    assert(r@ =~= meta_key_spec());
    r
}

/// Every byte of `s` XORed with `x`.
pub open spec fn xor_all(s: Seq<u8>, x: u8) -> Seq<u8> {
    Seq::new(s.len(), |i: int| s[i] ^ x)
}

/// Bytes of the decrypted key blob that precede the stream-cipher key.
pub const KEY_PREFIX_LEN: usize = 17;

/// Bytes of the metadata blob that precede its base64 text.
pub const META_SKIP: usize = 22;

/// Bytes of the decrypted metadata that precede its JSON text.
pub const META_PREFIX_LEN: usize = 6;

/// Why a container header could not be read.
#[derive(Clone, Copy, Debug, PartialEq, Eq, Structural)]
pub enum NcmError {
    /// The bytes end before the header does.
    Truncated,
    /// The first ten bytes are not the container's magic.
    BadMagic,
    /// The decrypted key blob is shorter than its fixed prefix.
    KeyTooShort,
    /// The stream-cipher key is empty or longer than 256 bytes.
    InvalidKeyLength,
    /// The metadata blob, or its decrypted form, is shorter than its fixed prefix.
    MetaTooShort,
    /// The metadata's base64 text does not decode.
    InvalidMetadata,
}

impl NcmError {
    /// Whether the bytes are no container at all, so that a local file may
    /// be read as plain audio; any other error marks a damaged container.
    pub fn is_not_a_container(&self) -> (r: bool)
        ensures
            r == (*self == NcmError::BadMagic),
    {
        match self {
            NcmError::BadMagic => true,
            _ => false,
        }
    }
}

/// What a header yields: the stream-cipher key, the metadata JSON and the
/// offset where the audio starts.
pub struct NcmHeaderModel {
    pub key: Seq<u8>,
    pub metadata: Seq<u8>,
    pub data_pos: int,
}

/// Length of the key blob.
pub open spec fn key_len_of(b: Seq<u8>) -> int {
    le_u32(b.subrange(10, 14)) as int
}

/// Length of the metadata blob.
pub open spec fn meta_len_of(b: Seq<u8>) -> int {
    let k = key_len_of(b);
    le_u32(b.subrange(14 + k, 18 + k)) as int
}

/// The key blob unwrapped: XOR with 0x64, then AES-ECB under the core key.
pub open spec fn key_material_of(b: Seq<u8>) -> Seq<u8> {
    let k = key_len_of(b);
    ecb_decrypt_spec(core_key_spec(), xor_all(b.subrange(14, 14 + k), 0x64))
}

/// The base64 text of the metadata: the blob XORed with 0x63, after its fixed prefix.
pub open spec fn meta_text_of(b: Seq<u8>) -> Seq<u8> {
    let k = key_len_of(b);
    let m = meta_len_of(b);
    xor_all(b.subrange(18 + k + 22, 18 + k + m), 0x63)
}

/// The metadata decrypted under the meta key, where its base64 decodes.
pub open spec fn meta_material_of(b: Seq<u8>) -> Seq<u8> {
    ecb_decrypt_spec(meta_key_spec(), base64_decoded_of(meta_text_of(b))->Some_0)
}

/// The header that the bytes `b` (a prefix of a container at least as long
/// as the header) describe, or why it cannot be read. Checks come in the
/// order in which the header is laid out.
pub open spec fn ncm_parse(b: Seq<u8>) -> Result<NcmHeaderModel, NcmError> {
    if b.len() < 10 {
        Err(NcmError::Truncated)
    } else if b.take(10) != ncm_magic() {
        Err(NcmError::BadMagic)
    } else if b.len() < 14 || b.len() < 14 + key_len_of(b) {
        Err(NcmError::Truncated)
    } else if key_material_of(b).len() < 17 {
        Err(NcmError::KeyTooShort)
    } else if b.len() < 18 + key_len_of(b) || b.len() < 18 + key_len_of(b) + meta_len_of(b) {
        Err(NcmError::Truncated)
    } else if meta_len_of(b) < 22 {
        Err(NcmError::MetaTooShort)
    } else if base64_decoded_of(meta_text_of(b)) is None {
        Err(NcmError::InvalidMetadata)
    } else if meta_material_of(b).len() < 6 {
        Err(NcmError::MetaTooShort)
    } else if b.len() < 31 + key_len_of(b) + meta_len_of(b) {
        Err(NcmError::Truncated)
    } else if key_material_of(b).len() == 17 || key_material_of(b).len() > 17 + 256 {
        Err(NcmError::InvalidKeyLength)
    } else {
        let end = 31 + key_len_of(b) + meta_len_of(b);
        Ok(
            NcmHeaderModel {
                key: key_material_of(b).skip(17),
                metadata: meta_material_of(b).skip(6),
                data_pos: end + le_u32(b.subrange(end - 4, end)) as int,
            },
        )
    }
}

/// An opened container: where its audio starts and the cipher that decrypts it.
pub struct NCMFile {
    data_pos: u64,
    key: Vec<u8>,
    metadata: Vec<u8>,
    rc4: RC4,
}

fn xor_bytes(src: &[u8], x: u8) -> (r: Vec<u8>)
    ensures
        r@ == xor_all(src@, x),
{
    let mut v: Vec<u8> = Vec::new();
    let mut i: usize = 0;
    while i < src.len()
        invariant
            i <= src@.len(),
            v@ == xor_all(src@.take(i as int), x),
        decreases src@.len() - i,
    {
        v.push(src[i] ^ x);
        i = i + 1;
        assert(v@ =~= xor_all(src@.take(i as int), x));
    }
    assert(src@.take(src@.len() as int) =~= src@);
    v
}

impl NCMFile {
    /// The stream-cipher key recovered from the header.
    pub closed spec fn key_spec(&self) -> Seq<u8> {
        self.key@
    }

    /// The metadata JSON recovered from the header.
    pub closed spec fn metadata_spec(&self) -> Seq<u8> {
        self.metadata@
    }

    /// The offset in the container where the audio starts.
    pub closed spec fn data_pos_spec(&self) -> u64 {
        self.data_pos
    }

    /// The box of the stream cipher.
    pub closed spec fn cipher_box(&self) -> Seq<u8> {
        self.rc4@
    }

    /// The cipher is the one that the recovered key schedules.
    pub closed spec fn wf(&self) -> bool {
        self.rc4@ == ksa(self.key@)
    }

    /// `self` is what opening a container whose header is `b` yields.
    pub open spec fn opened_from(&self, b: Seq<u8>) -> bool {
        &&& ncm_parse(b) is Ok
        &&& self.wf()
        &&& self.key_spec() == ncm_parse(b)->Ok_0.key
        &&& self.metadata_spec() == ncm_parse(b)->Ok_0.metadata
        &&& self.data_pos_spec() as int == ncm_parse(b)->Ok_0.data_pos
    }

    /// Reads the header from `bytes`, a prefix of the container that reaches
    /// at least to the image size (the image itself is skipped, not read).
    pub fn new(bytes: &[u8]) -> (r: Result<NCMFile, NcmError>)
        ensures
            r is Ok <==> ncm_parse(bytes@) is Ok,
            r is Ok ==> r->Ok_0.opened_from(bytes@),
            r is Err ==> ncm_parse(bytes@) == Err::<NcmHeaderModel, NcmError>(r->Err_0),
    {
        let n: u64 = bytes.len() as u64;
        if n < 10 {
            return Err(NcmError::Truncated);
        }
        let mut i: usize = 0;
        while i < 10
            invariant
                i <= 10,
                bytes@.len() >= 10,
                bytes@.take(i as int) == ncm_magic().take(i as int),
            decreases 10 - i,
        {
            let expected: u8 = if i == 0 {
                0x43
            } else if i == 1 {
                0x54
            } else if i == 2 {
                0x45
            } else if i == 3 {
                0x4E
            } else if i == 4 {
                0x46
            } else if i == 5 {
                0x44
            } else if i == 6 {
                0x41
            } else if i == 7 {
                0x4D
            } else if i == 8 {
                0x01
            } else {
                0x70
            };
            assert(expected == ncm_magic()[i as int]);
            if bytes[i] != expected {
                assert(bytes@.take(10)[i as int] != ncm_magic()[i as int]);
                return Err(NcmError::BadMagic);
            }
            i = i + 1;
            assert(bytes@.take(i as int) =~= ncm_magic().take(i as int));
        }
        assert(bytes@.take(10) =~= ncm_magic());
        if n < 14 {
            return Err(NcmError::Truncated);
        }
        let klen: u64 = read_u32_le(&bytes[10..14]) as u64;
        let kend: u64 = 14 + klen;
        if n < kend {
            return Err(NcmError::Truncated);
        }
        let kblob = xor_bytes(&bytes[14..kend as usize], 0x64);
        let ckey = core_key();
        let kdec = ecb_decrypt(&ckey, kblob.as_slice());
        if kdec.len() < KEY_PREFIX_LEN {
            return Err(NcmError::KeyTooShort);
        }
        if n < kend + 4 {
            return Err(NcmError::Truncated);
        }
        let mlen: u64 = read_u32_le(&bytes[kend as usize..kend as usize + 4]) as u64;
        let mstart: u64 = kend + 4;
        let mend: u64 = mstart + mlen;
        if n < mend {
            return Err(NcmError::Truncated);
        }
        if mlen < META_SKIP as u64 {
            return Err(NcmError::MetaTooShort);
        }
        let mtext = xor_bytes(&bytes[mstart as usize + META_SKIP..mend as usize], 0x63);
        let decoded = match base64_decode(mtext.as_slice()) {
            Ok(d) => d,
            Err(_) => {
                return Err(NcmError::InvalidMetadata);
            },
        };
        let mkey = meta_key();
        let mdec = ecb_decrypt(&mkey, decoded.as_slice());
        if mdec.len() < META_PREFIX_LEN {
            return Err(NcmError::MetaTooShort);
        }
        let end: u64 = mend + 13;
        if n < end {
            return Err(NcmError::Truncated);
        }
        let klen_total = kdec.len();
        if klen_total == KEY_PREFIX_LEN || klen_total > KEY_PREFIX_LEN + 256 {
            return Err(NcmError::InvalidKeyLength);
        }
        let image_size: u64 = read_u32_le(&bytes[end as usize - 4..end as usize]) as u64;
        let key = slice_to_vec(&kdec.as_slice()[KEY_PREFIX_LEN..klen_total]);
        let metadata = slice_to_vec(&mdec.as_slice()[META_PREFIX_LEN..mdec.len()]);
        let rc4 = RC4::new(key.as_slice());
        proof {
            assert(bytes@.subrange(14, 14 + klen as int) == bytes@.subrange(14, kend as int));
            assert(kdec@.skip(17) =~= key@);
            assert(mdec@.skip(6) =~= metadata@);
            assert(xor_all(bytes@.subrange(mstart + 22, mend as int), 0x63) == meta_text_of(bytes@));
        }
        Ok(NCMFile { data_pos: end + image_size, key, metadata, rc4 })
    }

    /// The offset in the container where the audio starts.
    pub fn data_pos(&self) -> (r: u64)
        ensures
            r == self.data_pos_spec(),
    {
        self.data_pos
    }

    /// The stream-cipher key recovered from the header.
    pub fn key(&self) -> (r: &[u8])
        ensures
            r@ == self.key_spec(),
    {
        self.key.as_slice()
    }

    /// The metadata JSON recovered from the header.
    pub fn metadata(&self) -> (r: &[u8])
        ensures
            r@ == self.metadata_spec(),
    {
        self.metadata.as_slice()
    }

    /// Decrypts in place a chunk just read from the audio part, which starts
    /// `pos` bytes after the start of the audio: the byte at index `i` is
    /// XORed with the key-stream byte of position `pos + i`, so the result
    /// does not depend on how the audio is cut into chunks.
    pub fn read(&self, pos: u64, buf: &mut [u8])
        requires
            self.wf(),
        ensures
            final(buf)@ == apply_keystream_at(ksa(self.key_spec()), pos as int, old(buf)@),
    {
        self.rc4.prga_at(pos, buf);
    }

    /// Where a seek lands in the underlying container: the absolute target
    /// and the position relative to the start of the audio. Targets before
    /// the audio are clamped to its start; `None` where the target does not
    /// fit in 64 bits.
    pub fn seek(&self, req: SeekRequest, inner_pos: u64, inner_len: u64) -> (r: Option<SeekPlan>)
        ensures
            r is Some <==> seek_clamped(req, self.data_pos_spec(), inner_pos, inner_len) <= u64::MAX,
            r is Some ==> r->Some_0.target as int == seek_clamped(req, self.data_pos_spec(), inner_pos, inner_len),
            r is Some ==> r->Some_0.position as int == r->Some_0.target - self.data_pos_spec(),
            r is Some && seek_raw(req, self.data_pos_spec(), inner_pos, inner_len) <= self.data_pos_spec()
                ==> r->Some_0.position == 0,
    {
        let dp = self.data_pos;
        let target: u64 = match req {
            SeekRequest::Start(o) => {
                if o > u64::MAX - dp {
                    return None;
                }
                dp + o
            },
            SeekRequest::End(o) => match offset_u64(inner_len, o) {
                Some(t) => t,
                None => {
                    if o > 0 {
                        return None;
                    }
                    0
                },
            },
            SeekRequest::Current(o) => match offset_u64(inner_pos, o) {
                Some(t) => t,
                None => {
                    if o > 0 {
                        return None;
                    }
                    0
                },
            },
        };
        let target = if target < dp {
            dp
        } else {
            target
        };
        Some(SeekPlan { target, position: target - dp })
    }
}

/// `base + off` where it lies in `0..=u64::MAX`.
fn offset_u64(base: u64, off: i64) -> (r: Option<u64>)
    ensures
        r is Some <==> 0 <= base + off <= u64::MAX,
        r is Some ==> r->Some_0 == base + off,
        r is None ==> (off > 0 <==> base + off > u64::MAX),
{
    if off >= 0 {
        let o = off as u64;
        if o > u64::MAX - base {
            None
        } else {
            Some(base + o)
        }
    } else {
        let back: u64 = if off == i64::MIN {
            0x8000_0000_0000_0000u64
        } else {
            (-off) as u64
        };
        if back > base {
            None
        } else {
            Some(base - back)
        }
    }
}

/// A seek on the decrypted audio, relative to its start, its end, or the
/// current position.
#[derive(Clone, Copy, Debug, PartialEq, Eq, Structural)]
pub enum SeekRequest {
    Start(u64),
    End(i64),
    Current(i64),
}

/// Where a seek lands: `target` in the container, `position` in the audio.
#[derive(Clone, Copy, Debug, PartialEq, Eq, Structural)]
pub struct SeekPlan {
    pub target: u64,
    pub position: u64,
}

/// The target of a seek before clamping, in the container's offsets.
pub open spec fn seek_raw(req: SeekRequest, data_pos: u64, inner_pos: u64, inner_len: u64) -> int {
    match req {
        SeekRequest::Start(o) => data_pos + o,
        SeekRequest::End(o) => inner_len + o,
        SeekRequest::Current(o) => inner_pos + o,
    }
}

/// The target of a seek, never before the start of the audio.
pub open spec fn seek_clamped(req: SeekRequest, data_pos: u64, inner_pos: u64, inner_len: u64) -> int {
    let raw = seek_raw(req, data_pos, inner_pos, inner_len);
    if raw < data_pos {
        data_pos as int
    } else {
        raw
    }
}

/// Opening the same container twice gives the same key, the same metadata,
/// the same start of audio, and the same decrypted bytes for the same chunk
/// at the same position.
pub proof fn lemma_open_deterministic(f1: NCMFile, f2: NCMFile, b: Seq<u8>, pos: int, chunk: Seq<u8>)
    requires
        f1.opened_from(b),
        f2.opened_from(b),
    ensures
        f1.key_spec() == f2.key_spec(),
        f1.metadata_spec() == f2.metadata_spec(),
        f1.data_pos_spec() == f2.data_pos_spec(),
        apply_keystream_at(ksa(f1.key_spec()), pos, chunk) == apply_keystream_at(
            ksa(f2.key_spec()),
            pos,
            chunk,
        ),
{
}

} // verus!

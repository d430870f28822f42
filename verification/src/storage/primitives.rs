//! The outside primitives the container is built from: Argon2id, the
//! AES-256-GCM-SIV segment stream, zlib and the random source.
//!
//! Nothing in this file is proved. Each function states what the crate it
//! calls is relied on to do.

use aead::generic_array::GenericArray;
use aead_io::{ArrayBuffer, DecryptBE32BufReader, EncryptBE32BufWriter};
use aes_gcm_siv::Aes256GcmSiv;
use flate2::read::ZlibDecoder;
use flate2::write::ZlibEncoder;
use flate2::Compression;
use rand::Rng;
use std::io::{Read, Write};
use vstd::prelude::*;

verus! {

/// The error type of the `argon2` crate.
#[verifier::external_type_specification]
#[verifier::external_body]
pub struct ExArgon2Error(argon2::Error);

/// Why the segment stream could not be produced or read back.
#[derive(Debug, Clone, Copy, PartialEq, Eq, Structural)]
pub enum StreamError {
    /// The segment buffer is too small to hold a segment.
    Capacity,
    /// A segment could not be encrypted, or the stream is damaged, cut short
    /// or was sealed under another key.
    Cipher,
}

/// The Argon2id (version 1.3) hash of `password` under `salt`, with no
/// secret and no associated data, for the inputs that the `argon2` crate
/// accepts.
pub uninterp spec fn argon2id_output(
    password: Seq<u8>,
    salt: Seq<u8>,
    mem_cost: u32,
    time_cost: u32,
    lanes: u32,
    hash_length: u32,
) -> Seq<u8>;

/// The inputs that the `argon2` crate hashes rather than rejects.
pub open spec fn argon2_accepts(
    password: Seq<u8>,
    salt: Seq<u8>,
    mem_cost: u32,
    time_cost: u32,
    lanes: u32,
    hash_length: u32,
) -> bool {
    &&& 1 <= lanes <= 0xFF_FFFF
    &&& 8 <= mem_cost
    &&& 8 * lanes <= mem_cost
    &&& 1 <= time_cost
    &&& password.len() <= 0xFFFF_FFFF
    &&& 8 <= salt.len() <= 0xFFFF_FFFF
    &&& 4 <= hash_length
}

/// What `EncryptBE32BufWriter<Aes256GcmSiv, ArrayBuffer<CAP>, _>` writes when
/// `plaintext` is handed to it in one piece and the stream is then closed.
pub uninterp spec fn stream_sealed(
    capacity: usize,
    key: Seq<u8>,
    nonce: Seq<u8>,
    plaintext: Seq<u8>,
) -> Option<Seq<u8>>;

/// What `DecryptBE32BufReader<Aes256GcmSiv, ArrayBuffer<CAP>, _>` yields when
/// `ciphertext` is read through it to the end.
pub uninterp spec fn stream_opened(capacity: usize, key: Seq<u8>, ciphertext: Seq<u8>) -> Option<
    Seq<u8>,
>;

/// The zlib stream that `flate2` produces for `data` at `level`.
pub uninterp spec fn zlib_deflated(level: u32, data: Seq<u8>) -> Option<Seq<u8>>;

/// The data that `flate2` recovers from the zlib stream `data`.
pub uninterp spec fn zlib_inflated(data: Seq<u8>) -> Option<Seq<u8>>;

/// Calls `argon2::hash_raw` with the Argon2id variant, version 1.3, an empty
/// secret and empty associated data.
///
/// The crate validates its parameters before hashing: the call fails
/// exactly when `argon2_accepts` is false. A hash that is returned has the
/// requested length and depends on the arguments alone. The memory cost is
/// kept within what the crate admits on every platform.
#[verifier::external_body]
pub(crate) fn argon2id_hash_raw(
    password: &[u8],
    salt: &[u8],
    mem_cost: u32,
    time_cost: u32,
    lanes: u32,
    hash_length: u32,
) -> (hash: Result<Vec<u8>, argon2::Error>)
    requires
        mem_cost <= 0x20_0000,
    ensures
        hash is Ok <==> argon2_accepts(password@, salt@, mem_cost, time_cost, lanes, hash_length),
        hash matches Ok(h) ==> h@ == argon2id_output(
            password@,
            salt@,
            mem_cost,
            time_cost,
            lanes,
            hash_length,
        ) && h@.len() == hash_length,
{
    let config = argon2::Config {
        variant: argon2::Variant::Argon2id,
        version: argon2::Version::Version13,
        mem_cost,
        time_cost,
        lanes,
        hash_length,
        secret: &[],
        ad: &[],
    };
    argon2::hash_raw(password, salt, &config)
}

/// Fills an array from `rand::thread_rng()`. Nothing is claimed about the
/// bytes drawn.
#[verifier::external_body]
pub(crate) fn random_bytes<const N: usize>() -> (bytes: [u8; N]) {
    let mut bytes = [0u8; N];
    rand::thread_rng().fill(&mut bytes[..]);
    bytes
}

/// Encrypts `plaintext` with `aead_io::EncryptBE32BufWriter` over
/// AES-256-GCM-SIV, using a segment buffer of `CAP` bytes and collecting the
/// output in memory.
///
/// The writer refuses a buffer with no room beyond the 16-byte tag. It
/// puts `CAP - 16` bytes of plaintext into a segment and fails only when
/// the 32-bit segment counter runs out, which takes more than `2^32 - 1`
/// full segments. What it writes depends on the arguments alone, and a
/// reader with the same buffer size and key recovers the plaintext from
/// it. The stream starts with the 7 bytes of the nonce and always holds a
/// last segment, which takes 4 bytes of length and 16 of tag at the least.
/// The buffer lives on the stack, so its size is kept small.
#[verifier::external_body]
pub(crate) fn encrypt_stream<const CAP: usize>(
    key: &[u8; 32],
    nonce: &[u8; 7],
    plaintext: &[u8],
) -> (sealed: Result<Vec<u8>, StreamError>)
    requires
        CAP <= 0x1_0000,
    ensures
        CAP <= 16 ==> sealed matches Err(StreamError::Capacity),
        CAP > 16 ==> match stream_sealed(CAP, key@, nonce@, plaintext@) {
            Some(c) => sealed matches Ok(s) && s@ == c,
            None => sealed matches Err(StreamError::Cipher),
        },
        CAP > 16 && plaintext@.len() <= (CAP - 16) * 0xFFFF_FFFF ==> sealed is Ok,
        sealed matches Ok(s) ==> stream_opened(CAP, key@, s@) == Some(plaintext@),
        sealed matches Ok(s) ==> s@.len() >= 27,
{
    let mut writer = EncryptBE32BufWriter::<Aes256GcmSiv, _, _>::new(
        GenericArray::from_slice(key),
        GenericArray::from_slice(nonce),
        ArrayBuffer::<CAP>::new(),
        Vec::new(),
    ).map_err(|_| StreamError::Capacity)?;
    writer.write_all(plaintext).map_err(|_| StreamError::Cipher)?;
    writer.into_inner().map_err(|_| StreamError::Cipher)
}

/// Decrypts `ciphertext` with `aead_io::DecryptBE32BufReader` over
/// AES-256-GCM-SIV, using a segment buffer of `CAP` bytes and reading to the
/// end of the stream.
///
/// The reader refuses an empty buffer. Otherwise the outcome depends on
/// the arguments alone: the plaintext, or a failure when a segment does not
/// authenticate, is longer than the buffer, or is cut short. A stream that
/// ends right after its nonce is read as an empty plaintext. The buffer
/// lives on the stack, so its size is kept small.
#[verifier::external_body]
pub(crate) fn decrypt_stream<const CAP: usize>(key: &[u8; 32], ciphertext: &[u8]) -> (opened:
    Result<Vec<u8>, StreamError>)
    requires
        CAP <= 0x1_0000,
    ensures
        CAP < 1 ==> opened matches Err(StreamError::Capacity),
        CAP >= 1 ==> match stream_opened(CAP, key@, ciphertext@) {
            Some(p) => opened matches Ok(o) && o@ == p,
            None => opened matches Err(StreamError::Cipher),
        },
{
    let mut reader = DecryptBE32BufReader::<Aes256GcmSiv, _, _>::new(
        GenericArray::from_slice(key),
        ArrayBuffer::<CAP>::new(),
        ciphertext,
    ).map_err(|_| StreamError::Capacity)?;
    let mut plaintext = Vec::new();
    reader.read_to_end(&mut plaintext).map_err(|_| StreamError::Cipher)?;
    Ok(plaintext)
}

/// Compresses `data` with `flate2::write::ZlibEncoder` into memory.
///
/// The stream produced depends on the arguments alone, and `ZlibDecoder`
/// recovers `data` from it.
#[verifier::external_body]
pub(crate) fn zlib_compress(data: &[u8], level: u32) -> (deflated: Option<Vec<u8>>)
    requires
        level <= 9,
    ensures
        match zlib_deflated(level, data@) {
            Some(c) => deflated matches Some(d) && d@ == c,
            None => deflated is None,
        },
        deflated matches Some(d) ==> zlib_inflated(d@) == Some(data@),
{
    let mut encoder = ZlibEncoder::new(Vec::new(), Compression::new(level));
    encoder.write_all(data).ok()?;
    encoder.finish().ok()
}

/// Decompresses the zlib stream `data` with `flate2::read::ZlibDecoder`.
///
/// The outcome depends on `data` alone: the data recovered, or a failure
/// when `data` is not a complete zlib stream.
#[verifier::external_body]
pub(crate) fn zlib_decompress(data: &[u8]) -> (inflated: Option<Vec<u8>>)
    ensures
        match zlib_inflated(data@) {
            Some(p) => inflated matches Some(i) && i@ == p,
            None => inflated is None,
        },
{
    let mut inflated = Vec::new();
    ZlibDecoder::new(data).read_to_end(&mut inflated).ok()?;
    Some(inflated)
}

} // verus!

//! Opening a document file: format checks, password check, decryption.

use super::bytes::ByteReader;
use super::primitives::{
    decrypt_stream, stream_opened, zlib_decompress, zlib_inflated, StreamError,
};
use super::{
    create_password_check, derive_key, hashable, password_hash, CreatePasswordCheckError,
    SaltAndNonce, FILE_HEADER, FORMAT_VERSION, SEGMENT_BUFFER,
};
use vstd::prelude::*;

verus! {

/// The section of the file that ended before it was complete.
#[derive(Debug, Clone, Copy, PartialEq, Eq, Structural)]
pub enum ReadFromFileReadError {
    Header,
    Version,
    Salt,
    Nonce,
}

/// The section of the file whose content was not what it has to be.
#[derive(Debug, Clone, Copy, PartialEq, Eq, Structural)]
pub enum ReadFromFileInvalidError {
    Header,
    Version,
    Password,
}

/// Why the file could not be opened for reading.
#[derive(Debug, Clone, Copy, PartialEq, Eq, Structural)]
pub enum ReadFromFileOpenFileError {
    NotFound,
    Permissions,
    Other,
}

/// Why a document could not be loaded.
#[allow(inconsistent_fields)]
#[derive(Debug, Clone, Copy, PartialEq, Eq, Structural)]
pub enum ReadFromFileError {
    Reading { part: ReadFromFileReadError },
    Invalid { part: ReadFromFileInvalidError },
    KeyDerivation,
    CreateCipher,
    OpenFile { case: ReadFromFileOpenFileError },
    Serialization,
    PasswordCheck,
}

/// What the check of header and version says of a file that holds `file`.
pub open spec fn header_and_version_verdict(file: Seq<u8>) -> Result<(), ReadFromFileError> {
    if file.len() < 4 {
        Err(ReadFromFileError::Reading { part: ReadFromFileReadError::Header })
    } else if file.take(4) != FILE_HEADER@ {
        Err(ReadFromFileError::Invalid { part: ReadFromFileInvalidError::Header })
    } else if file.len() < 5 {
        Err(ReadFromFileError::Reading { part: ReadFromFileReadError::Version })
    } else if file[4] != FORMAT_VERSION {
        Err(ReadFromFileError::Invalid { part: ReadFromFileInvalidError::Version })
    } else {
        Ok(())
    }
}

/// How many bytes the check of header and version takes from `file`: each
/// of the two fields is taken when it is there in full.
pub open spec fn header_and_version_consumed(file: Seq<u8>) -> int {
    if file.len() < 4 {
        0
    } else if file.take(4) != FILE_HEADER@ || file.len() < 5 {
        4
    } else {
        5
    }
}

/// What the salt and nonce section says of the bytes that follow the
/// version: the salt and the nonce, or the field that is cut short.
pub open spec fn salt_and_nonce_verdict(rest: Seq<u8>) -> Result<
    (Seq<u8>, Seq<u8>),
    ReadFromFileError,
> {
    if rest.len() < 16 {
        Err(ReadFromFileError::Reading { part: ReadFromFileReadError::Salt })
    } else if rest.len() < 28 {
        Err(ReadFromFileError::Reading { part: ReadFromFileReadError::Nonce })
    } else {
        Ok((rest.take(16), rest.subrange(16, 28)))
    }
}

/// What comparing a computed password check value with the stored one
/// says.
pub open spec fn password_check_verdict(
    expected: Result<Seq<u8>, CreatePasswordCheckError>,
    stored: Seq<u8>,
) -> Result<(), ReadFromFileError> {
    match expected {
        Err(_) => Err(ReadFromFileError::PasswordCheck),
        Ok(value) => if value == stored {
            Ok(())
        } else {
            Err(ReadFromFileError::Invalid { part: ReadFromFileInvalidError::Password })
        },
    }
}

/// The check value that `password` gives under `salt`, where it can be
/// hashed.
pub open spec fn password_check_value(password: Seq<char>, salt: Seq<u8>) -> Result<
    Seq<u8>,
    CreatePasswordCheckError,
> {
    if hashable(password, salt) {
        Ok(password_hash(password, salt))
    } else {
        Err(CreatePasswordCheckError::Hash)
    }
}

/// What the password check says of `password`, given the bytes from the
/// start of the password check block on.
pub open spec fn password_verdict(block: Seq<u8>, password: Seq<char>) -> Result<
    (),
    ReadFromFileError,
> {
    if block.len() < 64 {
        Err(ReadFromFileError::PasswordCheck)
    } else {
        password_check_verdict(
            password_check_value(password, block.take(32)),
            block.subrange(32, 64),
        )
    }
}

/// What becomes of the outcome of decrypting the segment stream.
pub open spec fn opened_stream_verdict(opened: Result<Seq<u8>, StreamError>) -> Result<
    Seq<u8>,
    ReadFromFileError,
> {
    match opened {
        Ok(compressed) => Ok(compressed),
        Err(StreamError::Capacity) => Err(ReadFromFileError::CreateCipher),
        Err(StreamError::Cipher) => Err(ReadFromFileError::Serialization),
    }
}

/// What becomes of the outcome of decompressing the decrypted stream.
pub open spec fn inflated_verdict(inflated: Option<Seq<u8>>) -> Result<
    Seq<u8>,
    ReadFromFileError,
> {
    match inflated {
        Some(payload) => Ok(payload),
        None => Err(ReadFromFileError::Serialization),
    }
}

/// The payload that `key` recovers from `ciphertext`: every segment must
/// authenticate and the stream that results must decompress.
pub open spec fn payload_opened(key: Seq<u8>, ciphertext: Seq<u8>) -> Result<
    Seq<u8>,
    ReadFromFileError,
> {
    match stream_opened(SEGMENT_BUFFER, key, ciphertext) {
        None => Err(ReadFromFileError::Serialization),
        Some(compressed) => inflated_verdict(zlib_inflated(compressed)),
    }
}

/// What stands between a file and its decryption: header, version, salt,
/// nonce and password check, in this order, and then the derivation of the
/// data key, which is the result. The ciphertext plays no part in it.
pub open spec fn admitted(file: Seq<u8>, password: Seq<char>) -> Result<
    Seq<u8>,
    ReadFromFileError,
> {
    match header_and_version_verdict(file) {
        Err(e) => Err(e),
        Ok(_) => match salt_and_nonce_verdict(file.skip(5)) {
            Err(e) => Err(e),
            Ok((salt, _)) => match password_verdict(file.skip(33), password) {
                Err(e) => Err(e),
                Ok(_) => if hashable(password, salt) {
                    Ok(password_hash(password, salt))
                } else {
                    Err(ReadFromFileError::KeyDerivation)
                },
            },
        },
    }
}

/// What loading a file that holds `file` with `password` gives: the
/// serialized document, or the first failure in the order header, version,
/// salt, nonce, password check, key derivation, decryption, decompression.
pub open spec fn loaded(file: Seq<u8>, password: Seq<char>) -> Result<Seq<u8>, ReadFromFileError> {
    match admitted(file, password) {
        Err(e) => Err(e),
        Ok(key) => payload_opened(key, file.skip(97)),
    }
}

/// Whether two byte strings are the same.
fn same_bytes(a: &[u8], b: &[u8]) -> (same: bool)
    ensures
        same == (a@ == b@),
{
    if a.len() != b.len() {
        return false;
    }
    let mut i: usize = 0;
    while i < a.len()
        invariant
            i <= a.len(),
            a.len() == b.len(),
            forall|k: int| 0 <= k < i ==> a@[k] == b@[k],
        decreases a.len() - i,
    {
        if a[i] != b[i] {
            return false;
        }
        i = i + 1;
    }
    assert(a@ =~= b@);
    true
}

/// Checks that the file starts with the magic header and a supported
/// version, and moves the reader past them.
pub fn verify_header_and_version(reader: &mut ByteReader) -> (verdict: Result<
    (),
    ReadFromFileError,
>)
    ensures
        verdict == header_and_version_verdict(old(reader).remaining()),
        final(reader).remaining() == old(reader).remaining().skip(
            header_and_version_consumed(old(reader).remaining()),
        ),
{
    let ghost file = reader.remaining();
    let header: [u8; 4] = match reader.read_exact::<4>() {
        Some(header) => header,
        None => {
            assert(file.skip(0) =~= file);
            return Err(ReadFromFileError::Reading { part: ReadFromFileReadError::Header });
        },
    };
    if !same_bytes(header.as_slice(), FILE_HEADER.as_slice()) {
        return Err(ReadFromFileError::Invalid { part: ReadFromFileInvalidError::Header });
    }
    let version: [u8; 1] = match reader.read_exact::<1>() {
        Some(version) => version,
        None => {
            return Err(ReadFromFileError::Reading { part: ReadFromFileReadError::Version });
        },
    };
    assert(file.skip(4).take(1)[0] == file[4]);
    assert(file.skip(4).skip(1) =~= file.skip(5));
    if version[0] != FORMAT_VERSION {
        return Err(ReadFromFileError::Invalid { part: ReadFromFileInvalidError::Version });
    }
    Ok(())
}

/// Reads the salt of the data key and the nonce of the data stream. A
/// field that is cut short is left unread.
pub fn extract_salt_and_nonce(reader: &mut ByteReader) -> (extracted: Result<
    SaltAndNonce,
    ReadFromFileError,
>)
    ensures
        match salt_and_nonce_verdict(old(reader).remaining()) {
            Ok((salt, nonce)) => extracted matches Ok(pair) && pair.salt@ == salt && pair.nonce@
                == nonce && final(reader).remaining() == old(reader).remaining().skip(28),
            Err(e) => extracted matches Err(got) && got == e,
        },
        old(reader).remaining().len() < 16 ==> final(reader).remaining() == old(reader).remaining(),
        16 <= old(reader).remaining().len() < 28 ==> final(reader).remaining() == old(reader).remaining().skip(16),
{
    let ghost rest = reader.remaining();
    let salt: [u8; 16] = match reader.read_exact::<16>() {
        Some(salt) => salt,
        None => {
            return Err(ReadFromFileError::Reading { part: ReadFromFileReadError::Salt });
        },
    };
    let nonce: [u8; 12] = match reader.read_exact::<12>() {
        Some(nonce) => nonce,
        None => {
            return Err(ReadFromFileError::Reading { part: ReadFromFileReadError::Nonce });
        },
    };
    assert(rest.skip(16).take(12) =~= rest.subrange(16, 28));
    assert(rest.skip(16).skip(12) =~= rest.skip(28));
    Ok(SaltAndNonce { salt, nonce })
}

/// Compares the check value computed from the candidate password with the
/// one stored in the file.
pub fn match_password_check(
    expected: Result<Vec<u8>, CreatePasswordCheckError>,
    stored: &[u8; 32],
) -> (verdict: Result<(), ReadFromFileError>)
    ensures
        verdict == password_check_verdict(
            match expected {
                Ok(value) => Ok(value@),
                Err(e) => Err(e),
            },
            stored@,
        ),
{
    match expected {
        Err(_) => Err(ReadFromFileError::PasswordCheck),
        Ok(value) => {
            if same_bytes(value.as_slice(), stored.as_slice()) {
                Ok(())
            } else {
                Err(ReadFromFileError::Invalid { part: ReadFromFileInvalidError::Password })
            }
        },
    }
}

/// Reads the password check block and checks `password` against it. The
/// reader is moved past the block when it is there in full.
pub fn verify_password(reader: &mut ByteReader, password: &String) -> (verdict: Result<
    (),
    ReadFromFileError,
>)
    ensures
        verdict == password_verdict(old(reader).remaining(), password@),
        old(reader).remaining().len() >= 64 ==> final(reader).remaining() == old(reader).remaining().skip(64),
        old(reader).remaining().len() < 32 ==> final(reader).remaining() == old(reader).remaining(),
        32 <= old(reader).remaining().len() < 64 ==> final(reader).remaining() == old(reader).remaining().skip(32),
{
    let ghost block = reader.remaining();
    let salt: [u8; 32] = match reader.read_exact::<32>() {
        Some(salt) => salt,
        None => {
            return Err(ReadFromFileError::PasswordCheck);
        },
    };
    let stored: [u8; 32] = match reader.read_exact::<32>() {
        Some(stored) => stored,
        None => {
            return Err(ReadFromFileError::PasswordCheck);
        },
    };
    assert(block.skip(32).take(32) =~= block.subrange(32, 64));
    assert(block.skip(32).skip(32) =~= block.skip(64));
    let expected = create_password_check(password, salt.as_slice());
    match_password_check(expected, &stored)
}

/// Maps the outcome of decrypting the segment stream to what loading
/// reports.
pub fn accept_opened_stream(opened: Result<Vec<u8>, StreamError>) -> (accepted: Result<
    Vec<u8>,
    ReadFromFileError,
>)
    ensures
        match opened {
            Ok(compressed) => accepted matches Ok(got) && got@ == compressed@,
            Err(StreamError::Capacity) => accepted matches Err(ReadFromFileError::CreateCipher),
            Err(StreamError::Cipher) => accepted matches Err(ReadFromFileError::Serialization),
        },
{
    match opened {
        Ok(compressed) => Ok(compressed),
        Err(StreamError::Capacity) => Err(ReadFromFileError::CreateCipher),
        Err(StreamError::Cipher) => Err(ReadFromFileError::Serialization),
    }
}

/// Maps the outcome of decompressing the decrypted stream to what loading
/// reports.
pub fn accept_inflated(inflated: Option<Vec<u8>>) -> (accepted: Result<Vec<u8>, ReadFromFileError>)
    ensures
        match inflated {
            Some(payload) => accepted matches Ok(got) && got@ == payload@,
            None => accepted matches Err(ReadFromFileError::Serialization),
        },
{
    match inflated {
        Some(payload) => Ok(payload),
        None => Err(ReadFromFileError::Serialization),
    }
}

/// Decrypts and decompresses the payload that follows the password check
/// block.
pub fn open_payload(key: &[u8; 32], ciphertext: &[u8]) -> (payload: Result<
    Vec<u8>,
    ReadFromFileError,
>)
    ensures
        match payload_opened(key@, ciphertext@) {
            Ok(p) => payload matches Ok(got) && got@ == p,
            Err(e) => payload matches Err(got) && got == e,
        },
{
    let compressed = accept_opened_stream(decrypt_stream::<SEGMENT_BUFFER>(key, ciphertext))?;
    accept_inflated(zlib_decompress(compressed.as_slice()))
}

/// Loads the serialized document from `file` with `password`.
///
/// Header and version are checked before anything else is read, and the
/// password before the data key is derived. Either the whole payload is
/// returned or an error: never a part of it.
pub fn load_from_file(file: ByteReader, password: String) -> (document: Result<
    Vec<u8>,
    ReadFromFileError,
>)
    ensures
        match loaded(file.remaining(), password@) {
            Ok(payload) => document matches Ok(got) && got@ == payload,
            Err(e) => document matches Err(got) && got == e,
        },
{
    let mut file = file;
    let ghost bytes = file.remaining();
    verify_header_and_version(&mut file)?;
    let data_salt_and_nonce = extract_salt_and_nonce(&mut file)?;
    assert(bytes.skip(5).skip(28) =~= bytes.skip(33));
    verify_password(&mut file, &password)?;
    assert(bytes.skip(33).skip(64) =~= bytes.skip(97));
    let data_key = match derive_key(&password, data_salt_and_nonce.salt.as_slice()) {
        Ok(key) => key,
        Err(_) => {
            return Err(ReadFromFileError::KeyDerivation);
        },
    };
    let ciphertext = file.read_to_end();
    open_payload(&data_key, ciphertext.as_slice())
}

} // verus!

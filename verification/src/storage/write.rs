//! Writing a document file: framing, password check block, encryption.

use super::bytes::ByteWriter;
use super::laws::lemma_framed_file_loads;
use super::primitives::{
    encrypt_stream, random_bytes, stream_sealed, zlib_compress, zlib_deflated, StreamError,
};
use super::read::{loaded, password_verdict, payload_opened};
use super::{
    create_password_check, derive_key, password_accepted, password_hash, SaltAndNonce,
    COMPRESSION_LEVEL, FILE_HEADER, FORMAT_VERSION, SEGMENT_BUFFER,
};
use vstd::prelude::*;

verus! {

/// The section of the file that could not be written.
#[derive(Debug, Clone, Copy, PartialEq, Eq, Structural)]
pub enum SaveToFileWriteError {
    Header,
    Version,
    Salt,
    Nonce,
    Password,
}

/// Why the file could not be opened for writing.
#[derive(Debug, Clone, Copy, PartialEq, Eq, Structural)]
pub enum SaveToFileOpenFileError {
    Permissions,
    Other,
}

/// Why a document could not be saved.
#[derive(Debug, Clone, Copy, PartialEq, Eq, Structural)]
pub enum SaveToFileError {
    Writing { part: SaveToFileWriteError },
    KeyDerivation,
    CreateCipher,
    OpenFile { case: SaveToFileOpenFileError },
    Serialization,
    PasswordCheck,
}

/// The ciphertext that a payload is stored as: compressed, then sealed
/// under `key` with the last seven bytes of `nonce`.
pub open spec fn payload_sealed(key: Seq<u8>, nonce: Seq<u8>, values: Seq<u8>) -> Option<Seq<u8>> {
    match zlib_deflated(COMPRESSION_LEVEL, values) {
        None => None,
        Some(compressed) => stream_sealed(SEGMENT_BUFFER, key, nonce.skip(5), compressed),
    }
}

/// The failure to write the section `part`.
pub open spec fn writing_failed(part: SaveToFileWriteError) -> Result<(), SaveToFileError> {
    Err(SaveToFileError::Writing { part })
}

/// Writes the magic header and the format version.
pub fn write_header_and_version(writer: &mut ByteWriter) -> (outcome: Result<(), SaveToFileError>)
    ensures
        old(writer).room() < 4 ==> {
            &&& outcome == writing_failed(SaveToFileWriteError::Header)
            &&& *final(writer) == *old(writer)
        },
        old(writer).room() == 4 ==> {
            &&& outcome == writing_failed(SaveToFileWriteError::Version)
            &&& final(writer).written() == old(writer).written() + FILE_HEADER@
            &&& final(writer).room() == 0
        },
        old(writer).room() >= 5 ==> {
            &&& outcome is Ok
            &&& final(writer).written() == old(writer).written() + FILE_HEADER@
                + seq![FORMAT_VERSION]
            &&& final(writer).room() == old(writer).room() - 5
        },
{
    if !writer.write_all(FILE_HEADER.as_slice()) {
        return Err(SaveToFileError::Writing { part: SaveToFileWriteError::Header });
    }
    let version: [u8; 1] = [FORMAT_VERSION];
    assert(version@ =~= seq![FORMAT_VERSION]);
    if !writer.write_all(version.as_slice()) {
        return Err(SaveToFileError::Writing { part: SaveToFileWriteError::Version });
    }
    Ok(())
}

/// Writes the salt of the data key, then the nonce of the data stream.
pub fn write_salt_and_nonce(writer: &mut ByteWriter, salt_and_nonce: &SaltAndNonce) -> (outcome:
    Result<(), SaveToFileError>)
    ensures
        old(writer).room() < 16 ==> {
            &&& outcome == writing_failed(SaveToFileWriteError::Salt)
            &&& *final(writer) == *old(writer)
        },
        16 <= old(writer).room() < 28 ==> {
            &&& outcome == writing_failed(SaveToFileWriteError::Nonce)
            &&& final(writer).written() == old(writer).written() + salt_and_nonce.salt@
            &&& final(writer).room() == old(writer).room() - 16
        },
        old(writer).room() >= 28 ==> {
            &&& outcome is Ok
            &&& final(writer).written() == old(writer).written() + salt_and_nonce.salt@
                + salt_and_nonce.nonce@
            &&& final(writer).room() == old(writer).room() - 28
        },
{
    if !writer.write_all(salt_and_nonce.salt.as_slice()) {
        return Err(SaveToFileError::Writing { part: SaveToFileWriteError::Salt });
    }
    if !writer.write_all(salt_and_nonce.nonce.as_slice()) {
        return Err(SaveToFileError::Writing { part: SaveToFileWriteError::Nonce });
    }
    Ok(())
}

/// Writes the password check block for `password` under the given salt:
/// the salt, then the check value. Nothing is written when the value
/// cannot be computed.
pub fn write_password_check_with_salt(
    writer: &mut ByteWriter,
    password: &String,
    salt: &[u8; 32],
) -> (outcome: Result<(), SaveToFileError>)
    ensures
        outcome is Ok <==> password_accepted(password@) && old(writer).room() >= 64,
        outcome matches Err(e) ==> e == SaveToFileError::PasswordCheck,
        outcome is Ok ==> {
            &&& final(writer).written() == old(writer).written() + salt@ + password_hash(
                password@,
                salt@,
            )
            &&& password_hash(password@, salt@).len() == 32
            &&& final(writer).room() == old(writer).room() - 64
        },
        !password_accepted(password@) || old(writer).room() < 32 ==> *final(writer) == *old(writer),
        password_accepted(password@) && 32 <= old(writer).room() < 64 ==> {
            &&& final(writer).written() == old(writer).written() + salt@
            &&& final(writer).room() == old(writer).room() - 32
        },
{
    let check = match create_password_check(password, salt.as_slice()) {
        Ok(check) => check,
        Err(_) => {
            return Err(SaveToFileError::PasswordCheck);
        },
    };
    if !writer.write_all(salt.as_slice()) {
        return Err(SaveToFileError::PasswordCheck);
    }
    if !writer.write_all(check.as_slice()) {
        return Err(SaveToFileError::PasswordCheck);
    }
    Ok(())
}

/// Writes a password check block for `password` under a fresh random salt.
///
/// Whatever salt is drawn, the block that is written accepts `password`.
pub fn write_password_check(writer: &mut ByteWriter, password: &String) -> (outcome: Result<
    (),
    SaveToFileError,
>)
    ensures
        outcome is Ok <==> password_accepted(password@) && old(writer).room() >= 64,
        outcome matches Err(e) ==> e == SaveToFileError::PasswordCheck,
        final(writer).written().len() >= old(writer).written().len(),
        final(writer).written().take(old(writer).written().len() as int) == old(writer).written(),
        outcome is Ok ==> {
            let before = old(writer).written();
            &&& final(writer).written().len() == before.len() + 64
            &&& password_verdict(final(writer).written().skip(before.len() as int), password@)
                is Ok
            &&& final(writer).room() == old(writer).room() - 64
        },
        !password_accepted(password@) || old(writer).room() < 32 ==> *final(writer) == *old(writer),
        password_accepted(password@) && 32 <= old(writer).room() < 64 ==> {
            &&& final(writer).written().len() == old(writer).written().len() + 32
            &&& final(writer).room() == old(writer).room() - 32
        },
{
    let salt: [u8; 32] = random_bytes::<32>();
    let outcome = write_password_check_with_salt(writer, password, &salt);
    proof {
        let before = old(writer).written();
        assert(writer.written().take(before.len() as int) =~= before);
        if outcome is Ok {
            let block = salt@ + password_hash(password@, salt@);
            assert(writer.written() =~= before + block);
            assert(writer.written().skip(before.len() as int) =~= block);
            assert(block.take(32) =~= salt@);
            assert(block.subrange(32, 64) =~= password_hash(password@, salt@));
        }
    }
    outcome
}

/// Maps the outcome of sealing the compressed payload to what saving
/// reports.
pub fn accept_sealed_stream(sealed: Result<Vec<u8>, StreamError>) -> (accepted: Result<
    Vec<u8>,
    SaveToFileError,
>)
    ensures
        match sealed {
            Ok(ciphertext) => accepted matches Ok(got) && got@ == ciphertext@,
            Err(StreamError::Capacity) => accepted matches Err(SaveToFileError::CreateCipher),
            Err(StreamError::Cipher) => accepted matches Err(SaveToFileError::Serialization),
        },
{
    match sealed {
        Ok(ciphertext) => Ok(ciphertext),
        Err(StreamError::Capacity) => Err(SaveToFileError::CreateCipher),
        Err(StreamError::Cipher) => Err(SaveToFileError::Serialization),
    }
}

/// Compresses `values`, seals the result under `key` and the stream part
/// of `nonce`, and writes the ciphertext. Nothing is written unless all of
/// it fits.
pub fn write_payload(
    writer: &mut ByteWriter,
    key: &[u8; 32],
    nonce: &[u8; 12],
    values: &[u8],
) -> (outcome: Result<(), SaveToFileError>)
    ensures
        match payload_sealed(key@, nonce@, values@) {
            Some(ciphertext) => if ciphertext.len() <= old(writer).room() {
                &&& outcome is Ok
                &&& final(writer).written() == old(writer).written() + ciphertext
                &&& final(writer).room() == old(writer).room() - ciphertext.len()
            } else {
                &&& outcome == Err::<(), SaveToFileError>(SaveToFileError::Serialization)
                &&& *final(writer) == *old(writer)
            },
            None => {
                &&& outcome == Err::<(), SaveToFileError>(SaveToFileError::Serialization)
                &&& *final(writer) == *old(writer)
            },
        },
        outcome is Ok ==> (payload_opened(
            key@,
            final(writer).written().skip(old(writer).written().len() as int),
        ) matches Ok(payload) && payload == values@),
        outcome is Ok ==> final(writer).written().len() >= old(writer).written().len() + 27,
{
    let compressed = match zlib_compress(values, COMPRESSION_LEVEL) {
        Some(compressed) => compressed,
        None => {
            return Err(SaveToFileError::Serialization);
        },
    };
    let mut stream_nonce: [u8; 7] = [0u8; 7];
    let mut i: usize = 0;
    while i < 7
        invariant
            i <= 7,
            forall|k: int| 0 <= k < i ==> stream_nonce@[k] == nonce@[k + 5],
        decreases 7 - i,
    {
        stream_nonce[i] = nonce[i + 5];
        i = i + 1;
    }
    assert(stream_nonce@ =~= nonce@.skip(5));
    let ciphertext = accept_sealed_stream(
        encrypt_stream::<SEGMENT_BUFFER>(key, &stream_nonce, compressed.as_slice()),
    )?;
    if !writer.write_all(ciphertext.as_slice()) {
        return Err(SaveToFileError::Serialization);
    }
    assert(writer.written().skip(old(writer).written().len() as int) =~= ciphertext@);
    Ok(())
}

/// Where the section that holds the byte at `offset` ends: the header at
/// 4, the version at 5, the salt at 21, the nonce at 33 and the password
/// check block at 97. The ciphertext has no end of its own.
pub open spec fn section_end_of(offset: int) -> Option<int> {
    if offset < 4 {
        Some(4)
    } else if offset < 5 {
        Some(5)
    } else if offset < 21 {
        Some(21)
    } else if offset < 33 {
        Some(33)
    } else if offset < 97 {
        Some(97)
    } else {
        None
    }
}

/// The error that stands for a failure to write the byte at `offset`.
pub open spec fn write_error_of(offset: int) -> SaveToFileError {
    if offset < 4 {
        SaveToFileError::Writing { part: SaveToFileWriteError::Header }
    } else if offset < 5 {
        SaveToFileError::Writing { part: SaveToFileWriteError::Version }
    } else if offset < 21 {
        SaveToFileError::Writing { part: SaveToFileWriteError::Salt }
    } else if offset < 33 {
        SaveToFileError::Writing { part: SaveToFileWriteError::Nonce }
    } else if offset < 97 {
        SaveToFileError::PasswordCheck
    } else {
        SaveToFileError::Serialization
    }
}

/// The end of the piece of a file of `length` bytes that starts at
/// `offset` and is written in one go: the end of the section that holds
/// `offset`, or the end of the file where that comes first. Past the end
/// of the file there is nothing to write.
pub fn section_end(offset: usize, length: usize) -> (end: usize)
    ensures
        end == if offset >= length {
            offset as int
        } else {
            match section_end_of(offset as int) {
                Some(section) => if section <= length {
                    section
                } else {
                    length as int
                },
                None => length as int,
            }
        },
        offset < length ==> offset < end <= length,
{
    if offset >= length {
        return offset;
    }
    let section: usize = if offset < 4 {
        4
    } else if offset < 5 {
        5
    } else if offset < 21 {
        21
    } else if offset < 33 {
        33
    } else if offset < 97 {
        97
    } else {
        length
    };
    if section <= length {
        section
    } else {
        length
    }
}

/// The error to report when the piece of a file that starts at `offset`
/// cannot be written.
pub fn write_error_at(offset: usize) -> (error: SaveToFileError)
    ensures
        error == write_error_of(offset as int),
{
    if offset < 4 {
        SaveToFileError::Writing { part: SaveToFileWriteError::Header }
    } else if offset < 5 {
        SaveToFileError::Writing { part: SaveToFileWriteError::Version }
    } else if offset < 21 {
        SaveToFileError::Writing { part: SaveToFileWriteError::Salt }
    } else if offset < 33 {
        SaveToFileError::Writing { part: SaveToFileWriteError::Nonce }
    } else if offset < 97 {
        SaveToFileError::PasswordCheck
    } else {
        SaveToFileError::Serialization
    }
}

/// The bytes of a document file: header, version, salt and nonce of the
/// data, salt and value of the password check, and the ciphertext.
pub open spec fn framed(
    salt: Seq<u8>,
    nonce: Seq<u8>,
    check_salt: Seq<u8>,
    check_value: Seq<u8>,
    ciphertext: Seq<u8>,
) -> Seq<u8> {
    FILE_HEADER@ + seq![FORMAT_VERSION] + salt + nonce + check_salt + check_value + ciphertext
}

/// The file that saving `values` under `password` gives once the salts and
/// the nonce have been drawn, where the payload can be sealed.
pub open spec fn saved(
    values: Seq<u8>,
    password: Seq<char>,
    salt: Seq<u8>,
    nonce: Seq<u8>,
    check_salt: Seq<u8>,
) -> Option<Seq<u8>> {
    match payload_sealed(password_hash(password, salt), nonce, values) {
        Some(ciphertext) => Some(
            framed(salt, nonce, check_salt, password_hash(password, check_salt), ciphertext),
        ),
        None => None,
    }
}

/// The bytes that stand before the ciphertext of a saved file.
pub open spec fn head_of(
    password: Seq<char>,
    salt: Seq<u8>,
    nonce: Seq<u8>,
    check_salt: Seq<u8>,
) -> Seq<u8> {
    FILE_HEADER@ + seq![FORMAT_VERSION] + salt + nonce + check_salt + password_hash(
        password,
        check_salt,
    )
}

/// What a save does once the salts and the nonce have been drawn: how it
/// ends, and the bytes it adds to a file with `room` bytes to spare.
///
/// A password that cannot be hashed ends it before anything is written.
/// Otherwise header, version, salt, nonce, the salt of the password check
/// and its value are written as far as each fits in full, and the first
/// that does not fit names the error. With room for all of them the save
/// succeeds exactly when the payload can be sealed and the whole file
/// fits; when not, the 97 bytes before the ciphertext stay.
pub open spec fn save_result(
    values: Seq<u8>,
    password: Seq<char>,
    salt: Seq<u8>,
    nonce: Seq<u8>,
    check_salt: Seq<u8>,
    room: nat,
) -> (Result<(), SaveToFileError>, Seq<u8>) {
    let head = head_of(password, salt, nonce, check_salt);
    if !password_accepted(password) {
        (Err(SaveToFileError::KeyDerivation), Seq::empty())
    } else if room < 4 {
        (writing_failed(SaveToFileWriteError::Header), Seq::empty())
    } else if room < 5 {
        (writing_failed(SaveToFileWriteError::Version), head.take(4))
    } else if room < 21 {
        (writing_failed(SaveToFileWriteError::Salt), head.take(5))
    } else if room < 33 {
        (writing_failed(SaveToFileWriteError::Nonce), head.take(21))
    } else if room < 65 {
        (Err(SaveToFileError::PasswordCheck), head.take(33))
    } else if room < 97 {
        (Err(SaveToFileError::PasswordCheck), head.take(65))
    } else {
        match saved(values, password, salt, nonce, check_salt) {
            Some(whole) => if whole.len() <= room {
                (Ok(()), whole)
            } else {
                (Err(SaveToFileError::Serialization), head)
            },
            None => (Err(SaveToFileError::Serialization), head),
        }
    }
}

/// Saves the serialized document `values` to `file` under `password`, with
/// the salt and nonce of the data and the salt of the password check as
/// given.
///
/// The data key is derived first. Then header and version, salt and
/// nonce, the password check block and the encrypted payload are written
/// in this order, and the first step that fails ends the save: what was
/// written before it stays.
pub fn save_with_salts(
    values: &[u8],
    file: &mut ByteWriter,
    password: &String,
    data: &SaltAndNonce,
    check_salt: &[u8; 32],
) -> (outcome: Result<(), SaveToFileError>)
    ensures
        outcome == save_result(
            values@,
            password@,
            data.salt@,
            data.nonce@,
            check_salt@,
            old(file).room(),
        ).0,
        final(file).written() == old(file).written() + save_result(
            values@,
            password@,
            data.salt@,
            data.nonce@,
            check_salt@,
            old(file).room(),
        ).1,
        final(file).room() == old(file).room() - (final(file).written().len() - old(file).written().len()),
        password_accepted(password@) && old(file).room() >= 97 ==> head_of(
            password@,
            data.salt@,
            data.nonce@,
            check_salt@,
        ).len() == 97,
        !password_accepted(password@) || old(file).room() < 4 ==> *final(file) == *old(file),
        outcome is Ok ==> final(file).written().len() >= old(file).written().len() + 124,
        outcome is Ok ==> (loaded(
            final(file).written().skip(old(file).written().len() as int),
            password@,
        ) matches Ok(payload) && payload == values@),
{
    let ghost before = file.written();
    let ghost salt = data.salt@;
    let ghost nonce = data.nonce@;
    let ghost check_value = password_hash(password@, check_salt@);
    let ghost head = head_of(password@, salt, nonce, check_salt@);
    assert(before + Seq::<u8>::empty() =~= before);
    let key = match derive_key(password, data.salt.as_slice()) {
        Ok(key) => key,
        Err(_) => {
            return Err(SaveToFileError::KeyDerivation);
        },
    };
    let framed_outcome = write_header_and_version(file);
    proof {
        assert(before + FILE_HEADER@ + seq![FORMAT_VERSION] =~= before + (FILE_HEADER@
            + seq![FORMAT_VERSION]));
        if old(file).room() >= 4 {
            assert(head.take(4) =~= FILE_HEADER@);
            assert(head.take(5) =~= FILE_HEADER@ + seq![FORMAT_VERSION]);
        }
    }
    framed_outcome?;
    let salted = write_salt_and_nonce(file, data);
    proof {
        assert(head.take(21) =~= FILE_HEADER@ + seq![FORMAT_VERSION] + salt);
        assert(head.take(33) =~= FILE_HEADER@ + seq![FORMAT_VERSION] + salt + nonce);
        assert(before + head.take(5) + salt =~= before + head.take(21));
        assert(before + head.take(5) + salt + nonce =~= before + head.take(33));
    }
    salted?;
    let checked = write_password_check_with_salt(file, password, check_salt);
    proof {
        assert(head.take(65) =~= FILE_HEADER@ + seq![FORMAT_VERSION] + salt + nonce + check_salt@);
        assert(before + head.take(33) + check_salt@ =~= before + head.take(65));
        if checked is Ok {
            assert(before + head.take(33) + check_salt@ + check_value =~= before + head);
        }
    }
    checked?;
    let outcome = write_payload(file, &key, &data.nonce, values);
    proof {
        match payload_sealed(key@, nonce, values@) {
            Some(ciphertext) => {
                let whole = framed(salt, nonce, check_salt@, check_value, ciphertext);
                assert(whole =~= head + ciphertext);
                if outcome is Ok {
                    assert(outcome->Ok_0 == ());
                    assert(file.written() =~= before + whole);
                    assert(file.written().skip(before.len() as int) =~= whole);
                    assert((before + head + ciphertext).skip((before + head).len() as int)
                        =~= ciphertext);
                    lemma_framed_file_loads(
                        values@,
                        password@,
                        salt,
                        nonce,
                        check_salt@,
                        ciphertext,
                    );
                }
            },
            None => {},
        }
    }
    outcome
}

/// Saves the serialized document `values` to `file` under `password`.
///
/// A fresh salt and nonce are drawn for the data key and the data stream,
/// and a fresh salt for the password check, and the save goes on as
/// `save_result` says for what was drawn. Whatever that is, a save that
/// fails for want of room says which section did not fit, and what a
/// successful save has written is longer than 97 bytes and loads back to
/// `values` under `password`.
pub fn save_to_file(values: Vec<u8>, file: &mut ByteWriter, password: String) -> (outcome: Result<
    (),
    SaveToFileError,
>)
    ensures
        exists|salt: Seq<u8>, nonce: Seq<u8>, check_salt: Seq<u8>|
            #![trigger save_result(values@, password@, salt, nonce, check_salt, old(file).room())]
            {
                &&& salt.len() == 16
                &&& nonce.len() == 12
                &&& check_salt.len() == 32
                &&& outcome == save_result(
                    values@,
                    password@,
                    salt,
                    nonce,
                    check_salt,
                    old(file).room(),
                ).0
                &&& final(file).written() == old(file).written() + save_result(
                    values@,
                    password@,
                    salt,
                    nonce,
                    check_salt,
                    old(file).room(),
                ).1
            },
        final(file).room() == old(file).room() - (final(file).written().len() - old(file).written().len()),
        !password_accepted(password@) ==> {
            &&& outcome == Err::<(), SaveToFileError>(SaveToFileError::KeyDerivation)
            &&& *final(file) == *old(file)
        },
        password_accepted(password@) ==> {
            let room = old(file).room();
            let written = final(file).written().len() - old(file).written().len();
            &&& room < 4 ==> outcome == writing_failed(SaveToFileWriteError::Header) && written
                == 0
            &&& room == 4 ==> outcome == writing_failed(SaveToFileWriteError::Version) && written
                == 4
            &&& 5 <= room < 21 ==> outcome == writing_failed(SaveToFileWriteError::Salt)
                && written == 5
            &&& 21 <= room < 33 ==> outcome == writing_failed(SaveToFileWriteError::Nonce)
                && written == 21
            &&& 33 <= room < 65 ==> outcome == Err::<(), SaveToFileError>(
                SaveToFileError::PasswordCheck,
            ) && written == 33
            &&& 65 <= room < 97 ==> outcome == Err::<(), SaveToFileError>(
                SaveToFileError::PasswordCheck,
            ) && written == 65
            &&& room >= 97 ==> (outcome is Ok && written >= 124) || (outcome == Err::<
                (),
                SaveToFileError,
            >(SaveToFileError::Serialization) && written == 97)
        },
        outcome is Ok ==> (loaded(
            final(file).written().skip(old(file).written().len() as int),
            password@,
        ) matches Ok(payload) && payload == values@),
{
    let ghost before = file.written();
    let data_salt_and_nonce = SaltAndNonce::random();
    let check_salt: [u8; 32] = random_bytes::<32>();
    let outcome = save_with_salts(
        values.as_slice(),
        file,
        &password,
        &data_salt_and_nonce,
        &check_salt,
    );
    proof {
        let salt = data_salt_and_nonce.salt@;
        let nonce = data_salt_and_nonce.nonce@;
        let drawn = save_result(values@, password@, salt, nonce, check_salt@, old(file).room());
        let head = head_of(password@, salt, nonce, check_salt@);
        assert(head.len() >= 65);
        if !password_accepted(password@) {
            assert(file.written() =~= before);
        }
    }
    outcome
}

} // verus!

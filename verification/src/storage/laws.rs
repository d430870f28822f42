//! What holds of every document file, stated over what loading gives.

use super::read::{
    admitted, payload_opened, header_and_version_verdict, loaded, password_verdict, salt_and_nonce_verdict,
    ReadFromFileError, ReadFromFileInvalidError, ReadFromFileReadError,
};
use super::write::framed;
use super::{password_accepted, password_hash, FILE_HEADER, FORMAT_VERSION};
use vstd::prelude::*;

verus! {

/// The error that a file of `length` bytes with a sound header and version
/// gives when `length` stops short of the ciphertext: it names the first
/// section that is not there in full.
pub open spec fn missing_section(length: int) -> ReadFromFileError {
    if length < 4 {
        ReadFromFileError::Reading { part: ReadFromFileReadError::Header }
    } else if length < 5 {
        ReadFromFileError::Reading { part: ReadFromFileReadError::Version }
    } else if length < 21 {
        ReadFromFileError::Reading { part: ReadFromFileReadError::Salt }
    } else if length < 33 {
        ReadFromFileError::Reading { part: ReadFromFileReadError::Nonce }
    } else {
        ReadFromFileError::PasswordCheck
    }
}

/// A file that does not start with the magic header, or whose version is
/// not the supported one, is rejected as such under every password: the
/// verdict is reached without the password and without anything that
/// follows the version.
pub proof fn lemma_unrecognised_format_rejected(file: Seq<u8>, password: Seq<char>)
    ensures
        file.len() >= 4 && file.take(4) != FILE_HEADER@ ==> loaded(file, password) == Err::<
            Seq<u8>,
            ReadFromFileError,
        >(ReadFromFileError::Invalid { part: ReadFromFileInvalidError::Header }),
        file.len() >= 5 && file.take(4) == FILE_HEADER@ && file[4] != FORMAT_VERSION ==> loaded(
            file,
            password,
        ) == Err::<Seq<u8>, ReadFromFileError>(
            ReadFromFileError::Invalid { part: ReadFromFileInvalidError::Version },
        ),
{
}

/// Cutting a file with a sound header and version to fewer than 97 bytes
/// gives the error of the first section that is no longer complete,
/// whatever the password.
pub proof fn lemma_truncated_file_rejected(file: Seq<u8>, password: Seq<char>, length: int)
    requires
        header_and_version_verdict(file) is Ok,
        0 <= length < 97,
        length <= file.len(),
    ensures
        loaded(file.take(length), password) == Err::<Seq<u8>, ReadFromFileError>(
            missing_section(length),
        ),
{
    let cut = file.take(length);
    if length >= 4 {
        assert(cut.take(4) =~= file.take(4));
    }
    if length >= 5 {
        assert(cut[4] == file[4]);
    }
}

/// Cutting a file that loads under some password to fewer than 97 bytes
/// gives, under any password, the error of the first section that is no
/// longer complete.
pub proof fn lemma_truncated_document_rejected(
    file: Seq<u8>,
    password: Seq<char>,
    other: Seq<char>,
    length: int,
)
    requires
        loaded(file, password) is Ok,
        0 <= length < 97,
    ensures
        file.len() >= 97,
        loaded(file.take(length), other) == Err::<Seq<u8>, ReadFromFileError>(
            missing_section(length),
        ),
{
    lemma_truncated_file_rejected(file, other, length);
}

/// Everything that is decided before decryption is decided by the first
/// 97 bytes: two files that agree on them are admitted or refused alike.
/// In particular, damage to the ciphertext does not change whether a
/// password is reported as wrong.
pub proof fn lemma_admission_ignores_ciphertext(
    file: Seq<u8>,
    other_file: Seq<u8>,
    password: Seq<char>,
)
    requires
        file.len() >= 97,
        other_file.len() >= 97,
        file.take(97) == other_file.take(97),
    ensures
        admitted(file, password) == admitted(other_file, password),
        loaded(file, password) is Err && admitted(file, password) is Err ==> loaded(
            other_file,
            password,
        ) == loaded(file, password),
{
    assert forall|i: int| 0 <= i < 97 implies file[i] == other_file[i] by {
        assert(file[i] == file.take(97)[i]);
        assert(other_file[i] == other_file.take(97)[i]);
    }
    assert(file.take(4) =~= other_file.take(4));
    assert(file.skip(5).take(16) =~= other_file.skip(5).take(16));
    assert(file.skip(5).subrange(16, 28) =~= other_file.skip(5).subrange(16, 28));
    assert(file.skip(33).take(32) =~= other_file.skip(33).take(32));
    assert(file.skip(33).subrange(32, 64) =~= other_file.skip(33).subrange(32, 64));
}

/// A file that loads under one password is refused as a password mismatch
/// under every other password that can be hashed, unless the stored salt
/// hashes both to the same check value.
pub proof fn lemma_wrong_password_rejected(file: Seq<u8>, password: Seq<char>, other: Seq<char>)
    requires
        loaded(file, password) is Ok,
        password_accepted(other),
    ensures
        file.len() >= 97,
        password_hash(other, file.subrange(33, 65)) != password_hash(
            password,
            file.subrange(33, 65),
        ) ==> loaded(file, other) == Err::<Seq<u8>, ReadFromFileError>(
            ReadFromFileError::Invalid { part: ReadFromFileInvalidError::Password },
        ),
{
    assert(file.skip(33).take(32) =~= file.subrange(33, 65));
}

/// A file loads only after its header, its version and the password
/// have passed their checks, in this order, and it has at least the 97
/// bytes that come before the ciphertext.
pub proof fn lemma_loaded_file_passed_every_check(file: Seq<u8>, password: Seq<char>)
    requires
        loaded(file, password) is Ok,
    ensures
        file.len() >= 97,
        header_and_version_verdict(file) is Ok,
        salt_and_nonce_verdict(file.skip(5)) is Ok,
        password_verdict(file.skip(33), password) is Ok,
        admitted(file, password) is Ok,
{
}

/// Loading reports neither a failure to open a file nor one to set up
/// the cipher, and a password that has passed its check never fails the
/// derivation of the data key.
pub proof fn lemma_load_errors(file: Seq<u8>, password: Seq<char>)
    ensures
        loaded(file, password) matches Err(e) ==> {
            &&& e != ReadFromFileError::KeyDerivation
            &&& e != ReadFromFileError::CreateCipher
            &&& !(e is OpenFile)
        },
{
    if file.len() >= 97 {
        assert(file.skip(5).take(16).len() == 16);
        assert(file.skip(33).take(32).len() == 32);
    }
}

/// Damage that is confined to the ciphertext of a file that loads leaves
/// two outcomes only: the file is refused as untrustworthy, or it loads to
/// what the segment stream and the decompression recover from the damaged
/// bytes under the same key. Whether the cipher ever accepts damaged
/// bytes is for the cipher to say.
pub proof fn lemma_damaged_ciphertext_outcome(
    file: Seq<u8>,
    damaged: Seq<u8>,
    password: Seq<char>,
)
    requires
        loaded(file, password) is Ok,
        damaged.len() >= 97,
        damaged.take(97) == file.take(97),
    ensures
        admitted(damaged, password) == admitted(file, password),
        loaded(damaged, password) == payload_opened(
            admitted(file, password)->Ok_0,
            damaged.skip(97),
        ),
        loaded(damaged, password) matches Err(e) ==> e == ReadFromFileError::Serialization,
{
    lemma_admission_ignores_ciphertext(file, damaged, password);
}

/// A framed file loads to the payload that its ciphertext opens to, under
/// the password that its check value and its key were derived from.
pub proof fn lemma_framed_file_loads(
    values: Seq<u8>,
    password: Seq<char>,
    salt: Seq<u8>,
    nonce: Seq<u8>,
    check_salt: Seq<u8>,
    ciphertext: Seq<u8>,
)
    requires
        salt.len() == 16,
        nonce.len() == 12,
        check_salt.len() == 32,
        password_hash(password, check_salt).len() == 32,
        password_accepted(password),
        payload_opened(password_hash(password, salt), ciphertext) == Ok::<
            Seq<u8>,
            ReadFromFileError,
        >(values),
    ensures
        loaded(
            framed(salt, nonce, check_salt, password_hash(password, check_salt), ciphertext),
            password,
        ) == Ok::<Seq<u8>, ReadFromFileError>(values),
{
    let check_value = password_hash(password, check_salt);
    let file = framed(salt, nonce, check_salt, check_value, ciphertext);
    assert(file.take(4) =~= FILE_HEADER@);
    assert(file[4] == FORMAT_VERSION);
    assert(file.skip(5).take(16) =~= salt);
    assert(file.skip(33).take(32) =~= check_salt);
    assert(file.skip(33).subrange(32, 64) =~= check_value);
    assert(file.skip(97) =~= ciphertext);
}

} // verus!

//! The encrypted document container.
//!
//! A saved document is one file:
//!
//! | offset | length | content                                   |
//! |--------|--------|-------------------------------------------|
//! | 0      | 4      | magic header                              |
//! | 4      | 1      | format version                            |
//! | 5      | 16     | salt of the data key                      |
//! | 21     | 12     | nonce of the data stream                  |
//! | 33     | 32     | salt of the password check                |
//! | 65     | 32     | password check value                      |
//! | 97     | rest   | encrypted, compressed, serialized document |

use vstd::prelude::*;

pub mod bytes;
pub mod laws;
pub mod primitives;
pub mod read;
pub mod write;

use primitives::{argon2id_hash_raw, argon2id_output, random_bytes};

verus! {

/// The four bytes every document file starts with: `MEPv`.
pub const FILE_HEADER: [u8; 4] = [0x4d, 0x45, 0x50, 0x76];

/// The only format version that is written and accepted.
pub const FORMAT_VERSION: u8 = 1;

/// Length in bytes of the password check salt, and of the check value.
pub const PASSWORD_CHECK_LENGTH: u32 = 32;

/// Length in bytes of the data key.
pub const KEY_LENGTH: u32 = 32;

/// Argon2id memory cost in KiB.
pub const ARGON2_MEMORY_COST: u32 = 250000;

/// Argon2id number of passes.
pub const ARGON2_TIME_COST: u32 = 1;

/// Argon2id degree of parallelism.
pub const ARGON2_LANES: u32 = 1;

/// Size in bytes of the buffer that holds one encrypted segment.
pub const SEGMENT_BUFFER: usize = 128;

/// Compression level of the payload: the strongest zlib offers.
pub const COMPRESSION_LEVEL: u32 = 9;

/// Offset of the first ciphertext byte: the end of the password check block.
pub const CIPHERTEXT_OFFSET: usize = 97;

/// The salt of the data key and the nonce of the data stream. A fresh pair is
/// drawn for every save.
#[derive(Debug, Clone, Copy, PartialEq, Eq)]
pub struct SaltAndNonce {
    pub nonce: [u8; 12],
    pub salt: [u8; 16],
}

impl SaltAndNonce {
    /// A pair drawn from the thread's random generator.
    pub fn random() -> Self {
        let salt: [u8; 16] = random_bytes::<16>();
        let nonce: [u8; 12] = random_bytes::<12>();
        SaltAndNonce { salt, nonce }
    }
}

impl Default for SaltAndNonce {
    fn default() -> (zeroed: Self)
        ensures
            zeroed.nonce@ == Seq::new(12, |i: int| 0u8),
            zeroed.salt@ == Seq::new(16, |i: int| 0u8),
    {
        let zeroed = SaltAndNonce { nonce: [0u8; 12], salt: [0u8; 16] };
        assert(zeroed.nonce@ =~= Seq::new(12, |i: int| 0u8));
        assert(zeroed.salt@ =~= Seq::new(16, |i: int| 0u8));
        zeroed
    }
}

/// Why a password check value could not be computed.
#[derive(Debug, Clone, Copy, PartialEq, Eq, Structural)]
pub enum CreatePasswordCheckError {
    Hash,
}

/// The bytes of a password that are hashed: its UTF-8 encoding.
pub open spec fn password_bytes(password: Seq<char>) -> Seq<u8> {
    vstd::utf8::encode_utf8(password)
}

/// Whether `password` can be hashed at all: its UTF-8 encoding must stay
/// under 4 GiB.
pub open spec fn password_accepted(password: Seq<char>) -> bool {
    password_bytes(password).len() <= 0xFFFF_FFFF
}

/// Whether `password` can be hashed under `salt`. The salt must have at
/// least 8 bytes, and neither may reach 4 GiB.
pub open spec fn hashable(password: Seq<char>, salt: Seq<u8>) -> bool {
    &&& password_accepted(password)
    &&& 8 <= salt.len() <= 0xFFFF_FFFF
}

/// The 32-byte Argon2id hash of `password` under `salt` at the fixed cost
/// of this format. It serves as data key and, under another salt, as
/// password check value.
pub open spec fn password_hash(password: Seq<char>, salt: Seq<u8>) -> Seq<u8> {
    argon2id_output(
        password_bytes(password),
        salt,
        ARGON2_MEMORY_COST,
        ARGON2_TIME_COST,
        ARGON2_LANES,
        KEY_LENGTH,
    )
}

/// Computes the password check value for `password` under `salt`.
pub fn create_password_check(password: &String, salt: &[u8]) -> (check: Result<
    Vec<u8>,
    CreatePasswordCheckError,
>)
    ensures
        check is Ok <==> hashable(password@, salt@),
        check matches Ok(value) ==> value@ == password_hash(password@, salt@) && value@.len()
            == PASSWORD_CHECK_LENGTH,
        check matches Err(e) ==> e == CreatePasswordCheckError::Hash,
{
    match argon2id_hash_raw(
        password.as_str().as_bytes(),
        salt,
        ARGON2_MEMORY_COST,
        ARGON2_TIME_COST,
        ARGON2_LANES,
        PASSWORD_CHECK_LENGTH,
    ) {
        Ok(value) => Ok(value),
        Err(_) => Err(CreatePasswordCheckError::Hash),
    }
}

/// Derives the 32-byte data key from `password` and `salt`.
pub fn derive_key(password: &String, salt: &[u8]) -> (key: Result<[u8; 32], argon2::Error>)
    ensures
        key is Ok <==> hashable(password@, salt@),
        key matches Ok(k) ==> k@ == password_hash(password@, salt@),
{
    match argon2id_hash_raw(
        password.as_str().as_bytes(),
        salt,
        ARGON2_MEMORY_COST,
        ARGON2_TIME_COST,
        ARGON2_LANES,
        KEY_LENGTH,
    ) {
        Ok(hash) => {
            let mut key: [u8; 32] = [0u8; 32];
            let mut i: usize = 0;
            while i < 32
                invariant
                    i <= 32,
                    hash@.len() == 32,
                    forall|k: int| 0 <= k < i ==> key@[k] == hash@[k],
                decreases 32 - i,
            {
                key[i] = hash[i];
                i = i + 1;
            }
            assert(key@ =~= hash@);
            Ok(key)
        },
        Err(e) => Err(e),
    }
}

} // verus!

use exam_vault::storage::bytes::{ByteReader, ByteWriter};
use exam_vault::storage::read::{
    accept_inflated, accept_opened_stream, extract_salt_and_nonce, load_from_file,
    match_password_check, open_payload, verify_header_and_version, verify_password,
    ReadFromFileError, ReadFromFileInvalidError, ReadFromFileReadError,
};
use exam_vault::storage::primitives::StreamError;
use exam_vault::storage::write::{
    accept_sealed_stream, save_to_file, save_with_salts, section_end, write_error_at,
    write_header_and_version, write_password_check,
    write_password_check_with_salt, write_payload, write_salt_and_nonce, SaveToFileError,
    SaveToFileWriteError,
};
use exam_vault::storage::{
    create_password_check, derive_key, CreatePasswordCheckError, SaltAndNonce, CIPHERTEXT_OFFSET,
    FILE_HEADER, FORMAT_VERSION, PASSWORD_CHECK_LENGTH,
};
use std::io::Read;

fn empty_document() -> Vec<u8> {
    let json = "{\"examinees\":[],\"academicCentres\":[],\"subjects\":[],\"vigilants\":[],\
        \"classrooms\":[],\"ids\":{\"examinees\":0,\"academicCentres\":0,\"subjects\":0,\
        \"vigilants\":0,\"classrooms\":0}}";
    json.as_bytes().to_vec()
}

fn long_document() -> Vec<u8> {
    let mut bytes = Vec::new();
    for i in 0..5000u32 {
        bytes.extend_from_slice(&i.wrapping_mul(2654435761).to_le_bytes());
    }
    bytes
}

fn saved(document: &[u8], password: &str) -> Vec<u8> {
    let mut file = ByteWriter::new();
    assert_eq!(save_to_file(document.to_vec(), &mut file, password.to_string()), Ok(()));
    file.into_bytes()
}

fn reference_hash(password: &str, salt: &[u8]) -> Vec<u8> {
    let config = argon2::Config {
        variant: argon2::Variant::Argon2id,
        version: argon2::Version::Version13,
        mem_cost: 250000,
        time_cost: 1,
        lanes: 1,
        hash_length: 32,
        secret: &[],
        ad: &[],
    };
    argon2::hash_raw(password.as_bytes(), salt, &config).unwrap()
}

fn reading(part: ReadFromFileReadError) -> ReadFromFileError {
    ReadFromFileError::Reading { part }
}

fn invalid(part: ReadFromFileInvalidError) -> ReadFromFileError {
    ReadFromFileError::Invalid { part }
}

const KEY: [u8; 32] = [7; 32];
const NONCE: [u8; 12] = [0, 1, 2, 3, 4, 5, 6, 7, 8, 9, 10, 11];

#[test]
fn save_then_load_returns_the_document() {
    let document = empty_document();
    let file = saved(&document, "correct-horse");
    let loaded = load_from_file(ByteReader::new(file), "correct-horse".to_string());
    assert_eq!(loaded, Ok(document));
}

#[test]
fn wrong_password_is_reported_as_such() {
    let file = saved(&empty_document(), "correct-horse");
    let loaded = load_from_file(ByteReader::new(file), "wrong-horse".to_string());
    assert_eq!(loaded, Err(invalid(ReadFromFileInvalidError::Password)));
}

#[test]
fn wrong_password_is_reported_whatever_the_ciphertext_holds() {
    let mut file = saved(&empty_document(), "correct-horse");
    for byte in file.iter_mut().skip(CIPHERTEXT_OFFSET) {
        *byte ^= 0xff;
    }
    let loaded = load_from_file(ByteReader::new(file.clone()), "wrong-horse".to_string());
    assert_eq!(loaded, Err(invalid(ReadFromFileInvalidError::Password)));
    file.truncate(CIPHERTEXT_OFFSET);
    let loaded = load_from_file(ByteReader::new(file), "wrong-horse".to_string());
    assert_eq!(loaded, Err(invalid(ReadFromFileInvalidError::Password)));
}

#[test]
fn garbage_is_rejected_at_the_header() {
    let garbage: Vec<u8> = vec![9, 8, 7, 6, 5, 4, 3, 2, 1, 0];
    let loaded = load_from_file(ByteReader::new(garbage), "correct-horse".to_string());
    assert_eq!(loaded, Err(invalid(ReadFromFileInvalidError::Header)));
}

#[test]
fn unsupported_version_is_rejected() {
    let mut file = vec![0u8; 200];
    file[..4].copy_from_slice(&FILE_HEADER);
    file[4] = 2;
    let loaded = load_from_file(ByteReader::new(file), "correct-horse".to_string());
    assert_eq!(loaded, Err(invalid(ReadFromFileInvalidError::Version)));
}

#[test]
fn truncated_file_names_the_first_incomplete_section() {
    let mut file = Vec::new();
    file.extend_from_slice(&FILE_HEADER);
    file.push(FORMAT_VERSION);
    file.extend_from_slice(&[3u8; 16]);
    file.extend_from_slice(&[4u8; 12]);
    file.extend_from_slice(&[5u8; 64]);
    assert_eq!(file.len(), CIPHERTEXT_OFFSET);
    for length in 0..CIPHERTEXT_OFFSET {
        let expected = if length < 4 {
            reading(ReadFromFileReadError::Header)
        } else if length < 5 {
            reading(ReadFromFileReadError::Version)
        } else if length < 21 {
            reading(ReadFromFileReadError::Salt)
        } else if length < 33 {
            reading(ReadFromFileReadError::Nonce)
        } else {
            ReadFromFileError::PasswordCheck
        };
        let cut = file[..length].to_vec();
        let loaded = load_from_file(ByteReader::new(cut), "correct-horse".to_string());
        assert_eq!(loaded, Err(expected), "length {}", length);
    }
}

#[test]
fn truncated_saved_file_is_rejected() {
    let file = saved(&empty_document(), "correct-horse");
    let cut = file[..file.len() - 1].to_vec();
    let loaded = load_from_file(ByteReader::new(cut), "correct-horse".to_string());
    assert_eq!(loaded, Err(ReadFromFileError::Serialization));
}

#[test]
fn flipped_ciphertext_bit_is_detected_on_load() {
    let mut file = saved(&empty_document(), "correct-horse");
    let last = file.len() - 1;
    file[last] ^= 0x01;
    let loaded = load_from_file(ByteReader::new(file), "correct-horse".to_string());
    assert_eq!(loaded, Err(ReadFromFileError::Serialization));
}

#[test]
fn every_flipped_ciphertext_bit_is_detected() {
    let document = empty_document();
    let mut file = ByteWriter::new();
    assert_eq!(write_payload(&mut file, &KEY, &NONCE, &document), Ok(()));
    let ciphertext = file.into_bytes();
    assert_eq!(open_payload(&KEY, &ciphertext), Ok(document.clone()));
    for position in 0..ciphertext.len() {
        for bit in 0..8 {
            let mut tampered = ciphertext.clone();
            tampered[position] ^= 1 << bit;
            let opened = open_payload(&KEY, &tampered);
            assert_ne!(opened, Ok(document.clone()), "byte {} bit {}", position, bit);
            assert_eq!(opened, Err(ReadFromFileError::Serialization));
        }
    }
}

#[test]
fn dropped_segment_is_detected() {
    let document = long_document();
    let mut file = ByteWriter::new();
    assert_eq!(write_payload(&mut file, &KEY, &NONCE, &document), Ok(()));
    let ciphertext = file.into_bytes();
    assert_eq!(open_payload(&KEY, &ciphertext), Ok(document));
    let first_length = u32::from_be_bytes([
        ciphertext[7],
        ciphertext[8],
        ciphertext[9],
        ciphertext[10],
    ]) as usize;
    let mut without_first = ciphertext[..7].to_vec();
    without_first.extend_from_slice(&ciphertext[7 + 4 + first_length..]);
    assert_eq!(open_payload(&KEY, &without_first), Err(ReadFromFileError::Serialization));
    let mut cut = ciphertext.clone();
    let mut end = 7;
    let mut segments = 0;
    while end < ciphertext.len() {
        let length = u32::from_be_bytes([
            ciphertext[end],
            ciphertext[end + 1],
            ciphertext[end + 2],
            ciphertext[end + 3],
        ]) as usize;
        if end + 4 + length == ciphertext.len() {
            cut.truncate(end);
        }
        end += 4 + length;
        segments += 1;
    }
    assert!(segments > 2);
    assert!(cut.len() < ciphertext.len());
    assert_eq!(open_payload(&KEY, &cut), Err(ReadFromFileError::Serialization));
}

#[test]
fn payload_opens_under_its_key_only() {
    let document = empty_document();
    let mut file = ByteWriter::new();
    assert_eq!(write_payload(&mut file, &KEY, &NONCE, &document), Ok(()));
    let ciphertext = file.into_bytes();
    let other_key = [8u8; 32];
    assert_eq!(open_payload(&other_key, &ciphertext), Err(ReadFromFileError::Serialization));
    assert_eq!(open_payload(&KEY, &[]), Err(ReadFromFileError::Serialization));
    assert_eq!(open_payload(&KEY, &ciphertext[..6]), Err(ReadFromFileError::Serialization));
    assert_eq!(open_payload(&KEY, &ciphertext[..7]), Err(ReadFromFileError::Serialization));
    assert_eq!(open_payload(&KEY, &ciphertext[..9]), Err(ReadFromFileError::Serialization));
}

#[test]
fn payload_is_a_segment_stream_of_the_compressed_document() {
    let document = long_document();
    let mut file = ByteWriter::new();
    assert_eq!(write_payload(&mut file, &KEY, &NONCE, &document), Ok(()));
    let ciphertext = file.into_bytes();
    assert_eq!(&ciphertext[..7], &NONCE[5..]);
    assert_ne!(ciphertext, document);
    let mut reader = aead_io::DecryptBE32BufReader::<aes_gcm_siv::Aes256GcmSiv, _, _>::new(
        aead::generic_array::GenericArray::from_slice(&KEY),
        aead_io::ArrayBuffer::<128>::new(),
        ciphertext.as_slice(),
    )
    .unwrap();
    let mut compressed = Vec::new();
    reader.read_to_end(&mut compressed).unwrap();
    assert_ne!(compressed, document);
    assert_eq!(&compressed[..2], &[0x78, 0xda]);
    let mut inflated = Vec::new();
    flate2::read::ZlibDecoder::new(compressed.as_slice()).read_to_end(&mut inflated).unwrap();
    assert_eq!(inflated, document);
}

#[test]
fn payload_is_compressed() {
    let document = vec![b'a'; 10000];
    let mut file = ByteWriter::new();
    assert_eq!(write_payload(&mut file, &KEY, &NONCE, &document), Ok(()));
    let ciphertext = file.into_bytes();
    assert!(ciphertext.len() < 200);
    assert_eq!(open_payload(&KEY, &ciphertext), Ok(document));
}

#[test]
fn empty_payload_round_trips() {
    let mut file = ByteWriter::new();
    assert_eq!(write_payload(&mut file, &KEY, &NONCE, &[]), Ok(()));
    let ciphertext = file.into_bytes();
    assert!(ciphertext.len() >= 27);
    assert_eq!(open_payload(&KEY, &ciphertext), Ok(Vec::new()));
}

#[test]
fn payload_that_does_not_fit_is_not_written() {
    let mut file = ByteWriter::with_limit(10);
    assert_eq!(
        write_payload(&mut file, &KEY, &NONCE, &empty_document()),
        Err(SaveToFileError::Serialization)
    );
    assert_eq!(file.into_bytes(), Vec::<u8>::new());
}

#[test]
fn two_saves_of_one_document_differ() {
    let document = empty_document();
    let first = saved(&document, "correct-horse");
    let second = saved(&document, "correct-horse");
    assert_ne!(first, second);
    assert_ne!(first[5..21], second[5..21]);
    assert_ne!(first[21..33], second[21..33]);
    assert_ne!(first[33..65], second[33..65]);
    assert_ne!(first[65..97], second[65..97]);
    assert_ne!(first[CIPHERTEXT_OFFSET..], second[CIPHERTEXT_OFFSET..]);
}

#[test]
fn every_save_opens_under_the_key_of_its_own_salt() {
    let document = long_document();
    let file = saved(&document, "correct-horse");
    let key = derive_key(&"correct-horse".to_string(), &file[5..21]).unwrap();
    assert_eq!(open_payload(&key, &file[CIPHERTEXT_OFFSET..]), Ok(document));
}

#[test]
fn saved_file_has_the_documented_layout() {
    let password = "correct-horse";
    let document = empty_document();
    let file = saved(&document, password);
    assert_eq!(&file[..4], b"MEPv");
    assert_eq!(file[4], 1);
    assert!(file.len() >= CIPHERTEXT_OFFSET + 27);
    assert_eq!(&file[65..97], reference_hash(password, &file[33..65]).as_slice());
    assert_eq!(&file[97..104], &file[26..33]);
    let key = reference_hash(password, &file[5..21]);
    let mut key_array = [0u8; 32];
    key_array.copy_from_slice(&key);
    assert_eq!(open_payload(&key_array, &file[97..]), Ok(document));
}

fn save_with_room(limit: usize) -> (Result<(), SaveToFileError>, usize) {
    let mut file = ByteWriter::with_limit(limit);
    let outcome = save_to_file(empty_document(), &mut file, "correct-horse".to_string());
    (outcome, file.into_bytes().len())
}

fn writing(part: SaveToFileWriteError) -> Result<(), SaveToFileError> {
    Err(SaveToFileError::Writing { part })
}

#[test]
fn save_without_room_for_header_or_version_says_so() {
    assert_eq!(save_with_room(0), (writing(SaveToFileWriteError::Header), 0));
    assert_eq!(save_with_room(3), (writing(SaveToFileWriteError::Header), 0));
    assert_eq!(save_with_room(4), (writing(SaveToFileWriteError::Version), 4));
}

#[test]
fn save_without_room_for_salt_or_nonce_says_so() {
    assert_eq!(save_with_room(5), (writing(SaveToFileWriteError::Salt), 5));
    assert_eq!(save_with_room(20), (writing(SaveToFileWriteError::Salt), 5));
    assert_eq!(save_with_room(21), (writing(SaveToFileWriteError::Nonce), 21));
    assert_eq!(save_with_room(32), (writing(SaveToFileWriteError::Nonce), 21));
}

#[test]
fn save_without_room_for_password_check_or_payload_says_so() {
    assert_eq!(save_with_room(33), (Err(SaveToFileError::PasswordCheck), 33));
    assert_eq!(
        save_with_room(CIPHERTEXT_OFFSET + 5),
        (Err(SaveToFileError::Serialization), CIPHERTEXT_OFFSET)
    );
}

#[test]
fn password_check_is_the_argon2id_hash() {
    let password = "correct-horse".to_string();
    let salt = [9u8; 32];
    let check = create_password_check(&password, &salt).unwrap();
    assert_eq!(check.len(), PASSWORD_CHECK_LENGTH as usize);
    assert_eq!(check, reference_hash("correct-horse", &salt));
    assert_ne!(check.as_slice(), password.as_bytes());
    assert_ne!(check.as_slice(), &salt[..]);
}

#[test]
fn short_salt_is_refused() {
    let password = "correct-horse".to_string();
    assert_eq!(create_password_check(&password, &[1u8; 7]), Err(CreatePasswordCheckError::Hash));
    assert!(derive_key(&password, &[1u8; 7]).is_err());
    assert!(create_password_check(&password, &[1u8; 8]).is_ok());
}

#[test]
fn key_is_the_argon2id_hash() {
    let password = "pässword".to_string();
    let salt = [3u8; 16];
    let key = derive_key(&password, &salt).unwrap();
    assert_eq!(key.to_vec(), reference_hash("pässword", &salt));
    let again = derive_key(&password, &salt).unwrap();
    assert_eq!(key, again);
}

#[test]
fn header_and_version_are_checked_in_order() {
    let check = |bytes: &[u8]| {
        let mut reader = ByteReader::new(bytes.to_vec());
        let verdict = verify_header_and_version(&mut reader);
        (verdict, reader.len())
    };
    assert_eq!(check(b""), (Err(reading(ReadFromFileReadError::Header)), 0));
    assert_eq!(check(b"MEP"), (Err(reading(ReadFromFileReadError::Header)), 3));
    assert_eq!(check(b"MEPx\x01"), (Err(invalid(ReadFromFileInvalidError::Header)), 1));
    assert_eq!(check(b"MEPv"), (Err(reading(ReadFromFileReadError::Version)), 0));
    assert_eq!(check(b"MEPv\x00"), (Err(invalid(ReadFromFileInvalidError::Version)), 0));
    assert_eq!(check(b"MEPv\x02rest"), (Err(invalid(ReadFromFileInvalidError::Version)), 4));
    assert_eq!(check(b"MEPv\x01"), (Ok(()), 0));
    assert_eq!(check(b"MEPv\x01rest"), (Ok(()), 4));
}

#[test]
fn salt_and_nonce_are_read_in_order() {
    let mut bytes: Vec<u8> = (0u8..30).collect();
    let mut reader = ByteReader::new(bytes.clone());
    let pair = extract_salt_and_nonce(&mut reader).unwrap();
    assert_eq!(pair.salt.to_vec(), (0u8..16).collect::<Vec<u8>>());
    assert_eq!(pair.nonce.to_vec(), (16u8..28).collect::<Vec<u8>>());
    assert_eq!(reader.read_to_end(), vec![28, 29]);
    bytes.truncate(27);
    let mut reader = ByteReader::new(bytes.clone());
    assert_eq!(extract_salt_and_nonce(&mut reader), Err(reading(ReadFromFileReadError::Nonce)));
    bytes.truncate(15);
    let mut reader = ByteReader::new(bytes);
    assert_eq!(extract_salt_and_nonce(&mut reader), Err(reading(ReadFromFileReadError::Salt)));
}

#[test]
fn computed_check_is_compared_with_the_stored_one() {
    let stored = [5u8; 32];
    assert_eq!(match_password_check(Ok(vec![5u8; 32]), &stored), Ok(()));
    let mut other = vec![5u8; 32];
    other[31] = 6;
    assert_eq!(
        match_password_check(Ok(other), &stored),
        Err(invalid(ReadFromFileInvalidError::Password))
    );
    assert_eq!(
        match_password_check(Ok(vec![5u8; 31]), &stored),
        Err(invalid(ReadFromFileInvalidError::Password))
    );
    assert_eq!(
        match_password_check(Err(CreatePasswordCheckError::Hash), &stored),
        Err(ReadFromFileError::PasswordCheck)
    );
}

#[test]
fn password_block_is_verified() {
    let password = "correct-horse".to_string();
    let salt = [1u8; 32];
    let mut writer = ByteWriter::new();
    assert_eq!(write_password_check_with_salt(&mut writer, &password, &salt), Ok(()));
    let mut block = writer.into_bytes();
    assert_eq!(block.len(), 64);
    assert_eq!(&block[..32], &salt);
    assert_eq!(&block[32..], reference_hash("correct-horse", &salt).as_slice());
    block.push(0xaa);
    let mut reader = ByteReader::new(block.clone());
    assert_eq!(verify_password(&mut reader, &password), Ok(()));
    assert_eq!(reader.read_to_end(), vec![0xaa]);
    let mut reader = ByteReader::new(block.clone());
    assert_eq!(
        verify_password(&mut reader, &"Correct-horse".to_string()),
        Err(invalid(ReadFromFileInvalidError::Password))
    );
    let mut reader = ByteReader::new(block[..63].to_vec());
    assert_eq!(verify_password(&mut reader, &password), Err(ReadFromFileError::PasswordCheck));
}

#[test]
fn random_password_block_accepts_its_password() {
    let password = "correct-horse".to_string();
    let mut writer = ByteWriter::new();
    assert_eq!(write_password_check(&mut writer, &password), Ok(()));
    let block = writer.into_bytes();
    assert_eq!(block.len(), 64);
    let mut reader = ByteReader::new(block);
    assert_eq!(verify_password(&mut reader, &password), Ok(()));
    let mut small = ByteWriter::with_limit(63);
    assert_eq!(write_password_check(&mut small, &password), Err(SaveToFileError::PasswordCheck));
}

#[test]
fn stream_outcomes_are_mapped() {
    assert_eq!(accept_opened_stream(Ok(vec![1, 2])), Ok(vec![1, 2]));
    assert_eq!(
        accept_opened_stream(Err(StreamError::Capacity)),
        Err(ReadFromFileError::CreateCipher)
    );
    assert_eq!(
        accept_opened_stream(Err(StreamError::Cipher)),
        Err(ReadFromFileError::Serialization)
    );
    assert_eq!(accept_inflated(Some(vec![3])), Ok(vec![3]));
    assert_eq!(accept_inflated(None), Err(ReadFromFileError::Serialization));
    assert_eq!(accept_sealed_stream(Ok(vec![1, 2])), Ok(vec![1, 2]));
    assert_eq!(accept_sealed_stream(Err(StreamError::Capacity)), Err(SaveToFileError::CreateCipher));
    assert_eq!(accept_sealed_stream(Err(StreamError::Cipher)), Err(SaveToFileError::Serialization));
}

#[test]
fn framing_is_written_in_order() {
    let mut writer = ByteWriter::new();
    assert_eq!(write_header_and_version(&mut writer), Ok(()));
    let pair = SaltAndNonce { salt: [2; 16], nonce: [3; 12] };
    assert_eq!(write_salt_and_nonce(&mut writer, &pair), Ok(()));
    let mut expected = vec![0x4d, 0x45, 0x50, 0x76, 1];
    expected.extend_from_slice(&[2; 16]);
    expected.extend_from_slice(&[3; 12]);
    assert_eq!(writer.into_bytes(), expected);
    let mut writer = ByteWriter::with_limit(20);
    assert_eq!(
        write_salt_and_nonce(&mut writer, &pair),
        Err(SaveToFileError::Writing { part: SaveToFileWriteError::Nonce })
    );
    assert_eq!(writer.into_bytes(), vec![2; 16]);
}

#[test]
fn random_pairs_differ() {
    let first = SaltAndNonce::random();
    let second = SaltAndNonce::random();
    assert_ne!(first, second);
    assert_eq!(SaltAndNonce::default(), SaltAndNonce { salt: [0; 16], nonce: [0; 12] });
}

#[test]
fn byte_streams_read_and_write_in_order() {
    let mut reader = ByteReader::new(vec![1, 2, 3, 4, 5]);
    assert_eq!(reader.len(), 5);
    assert_eq!(reader.read_exact::<2>(), Some([1, 2]));
    assert_eq!(reader.read_exact::<4>(), None);
    assert_eq!(reader.len(), 3);
    assert_eq!(reader.read_exact::<0>(), Some([]));
    assert_eq!(reader.read_to_end(), vec![3, 4, 5]);
    assert_eq!(reader.read_to_end(), Vec::<u8>::new());
    let mut writer = ByteWriter::with_limit(3);
    assert!(writer.write_all(&[1, 2]));
    assert!(!writer.write_all(&[3, 4]));
    assert!(writer.write_all(&[]));
    assert!(writer.write_all(&[3]));
    assert!(!writer.write_all(&[4]));
    assert_eq!(writer.into_bytes(), vec![1, 2, 3]);
}

#[test]
fn save_with_given_salts_writes_the_documented_bytes() {
    let password = "correct-horse".to_string();
    let document = empty_document();
    let data = SaltAndNonce { salt: [0x11; 16], nonce: NONCE };
    let check_salt = [0x22u8; 32];
    let mut file = ByteWriter::new();
    assert_eq!(save_with_salts(&document, &mut file, &password, &data, &check_salt), Ok(()));
    let file = file.into_bytes();
    let mut key = [0u8; 32];
    key.copy_from_slice(&reference_hash("correct-horse", &data.salt));
    let mut payload = ByteWriter::new();
    assert_eq!(write_payload(&mut payload, &key, &NONCE, &document), Ok(()));
    let mut expected = b"MEPv\x01".to_vec();
    expected.extend_from_slice(&[0x11; 16]);
    expected.extend_from_slice(&NONCE);
    expected.extend_from_slice(&[0x22; 32]);
    expected.extend_from_slice(&reference_hash("correct-horse", &check_salt));
    assert_eq!(expected.len(), CIPHERTEXT_OFFSET);
    expected.extend_from_slice(&payload.into_bytes());
    assert_eq!(file, expected);
}

#[test]
fn save_with_given_salts_is_repeatable() {
    let password = "correct-horse".to_string();
    let document = long_document();
    let data = SaltAndNonce { salt: [0x11; 16], nonce: NONCE };
    let check_salt = [0x22u8; 32];
    let mut first = ByteWriter::new();
    assert_eq!(save_with_salts(&document, &mut first, &password, &data, &check_salt), Ok(()));
    let mut second = ByteWriter::with_limit(100000);
    assert!(second.write_all(&[0xee; 3]));
    assert_eq!(save_with_salts(&document, &mut second, &password, &data, &check_salt), Ok(()));
    let first = first.into_bytes();
    assert_eq!(&second.into_bytes()[3..], first.as_slice());
}

#[test]
fn save_with_given_salts_keeps_what_was_written_before_a_failure() {
    let password = "correct-horse".to_string();
    let data = SaltAndNonce { salt: [0x11; 16], nonce: NONCE };
    let check_salt = [0x22u8; 32];
    let mut file = ByteWriter::with_limit(70);
    assert_eq!(
        save_with_salts(&empty_document(), &mut file, &password, &data, &check_salt),
        Err(SaveToFileError::PasswordCheck)
    );
    let mut expected = b"MEPv\x01".to_vec();
    expected.extend_from_slice(&[0x11; 16]);
    expected.extend_from_slice(&NONCE);
    expected.extend_from_slice(&[0x22; 32]);
    assert_eq!(file.into_bytes(), expected);
}

#[test]
fn file_is_written_section_by_section() {
    let mut pieces = Vec::new();
    let mut start = 0;
    while start < 150 {
        let end = section_end(start, 150);
        pieces.push((start, end));
        start = end;
    }
    assert_eq!(pieces, vec![(0, 4), (4, 5), (5, 21), (21, 33), (33, 97), (97, 150)]);
    assert_eq!(section_end(0, 3), 3);
    assert_eq!(section_end(10, 12), 12);
    assert_eq!(section_end(12, 12), 12);
    assert_eq!(section_end(40, 12), 40);
    assert_eq!(section_end(97, 97), 97);
    assert_eq!(section_end(100, 97), 100);
    assert_eq!(write_error_at(0), SaveToFileError::Writing { part: SaveToFileWriteError::Header });
    assert_eq!(write_error_at(3), SaveToFileError::Writing { part: SaveToFileWriteError::Header });
    assert_eq!(
        write_error_at(4),
        SaveToFileError::Writing { part: SaveToFileWriteError::Version }
    );
    assert_eq!(write_error_at(5), SaveToFileError::Writing { part: SaveToFileWriteError::Salt });
    assert_eq!(write_error_at(20), SaveToFileError::Writing { part: SaveToFileWriteError::Salt });
    assert_eq!(write_error_at(21), SaveToFileError::Writing { part: SaveToFileWriteError::Nonce });
    assert_eq!(write_error_at(32), SaveToFileError::Writing { part: SaveToFileWriteError::Nonce });
    assert_eq!(write_error_at(33), SaveToFileError::PasswordCheck);
    assert_eq!(write_error_at(96), SaveToFileError::PasswordCheck);
    assert_eq!(write_error_at(97), SaveToFileError::Serialization);
    assert_eq!(write_error_at(5000), SaveToFileError::Serialization);
}

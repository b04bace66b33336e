use aegis_vault::crypto::{
    database_ciphertext, database_plaintext, decrypt, decrypt_database, decrypt_master_key,
    slot_ciphertext, try_decrypt_master_key, DecryptionError, Header, KeyParams, Sealed, Slot,
    SlotFault, SlotType,
};
use aegis_vault::kdf::{cost_exponent, derive_key, kdf_input, ParameterError, PasswordSlot};
use aegis_vault::{Vault, VaultDatabase, VaultError};
use aes_gcm::aead::{Aead, KeyInit};
use aes_gcm::{Aes256Gcm, Nonce};
use base64::Engine;

const SALT: [u8; 8] = [1, 2, 3, 4, 5, 6, 7, 8];
const NONCE: [u8; 12] = [9, 8, 7, 6, 5, 4, 3, 2, 1, 0, 1, 2];
const DB_NONCE: [u8; 12] = [0x10, 0x11, 0x12, 0x13, 0x14, 0x15, 0x16, 0x17, 0x18, 0x19, 0x1a, 0x1b];
const DB_TEXT: &str = "{\"version\":2,\"entries\":[]}";

fn master_key(seed: u8) -> Vec<u8> {
    (0..32u8).map(|i| i.wrapping_mul(7).wrapping_add(seed)).collect()
}

fn seal(key: &[u8], nonce: &[u8], plain: &[u8]) -> (Vec<u8>, Vec<u8>) {
    let cipher = Aes256Gcm::new_from_slice(key).unwrap();
    let mut sealed = cipher.encrypt(Nonce::from_slice(nonce), plain).unwrap();
    let tag = sealed.split_off(sealed.len() - 16);
    (sealed, tag)
}

fn kdf(password: &str, n: u32) -> Vec<u8> {
    let params = scrypt::Params::new(n.trailing_zeros() as u8, 8, 1, 32).unwrap();
    let mut out = vec![0u8; 32];
    scrypt::scrypt(password.as_bytes(), &SALT, &params, &mut out).unwrap();
    out
}

fn password_slot(password: &str, master: &[u8]) -> Slot {
    let (wrapped, tag) = seal(&kdf(password, 16), &NONCE, master);
    Slot {
        slot_type: SlotType::Password(PasswordSlot { n: 16, r: 8, p: 1, salt: hex::encode(SALT) }),
        key: hex::encode(wrapped),
        key_params: KeyParams { nonce: hex::encode(NONCE), tag: hex::encode(tag) },
    }
}

fn plain_slot(slot_type: SlotType) -> Slot {
    Slot {
        slot_type,
        key: hex::encode([0u8; 32]),
        key_params: KeyParams { nonce: hex::encode(NONCE), tag: hex::encode([0u8; 16]) },
    }
}

fn sealed_database(master: &[u8], text: &[u8]) -> (KeyParams, String) {
    let (blob, tag) = seal(master, &DB_NONCE, text);
    (
        KeyParams { nonce: hex::encode(DB_NONCE), tag: hex::encode(tag) },
        base64::engine::general_purpose::STANDARD.encode(blob),
    )
}

fn vault_for(slots: Vec<Slot>, master: &[u8], text: &[u8]) -> Vault {
    let (params, blob) = sealed_database(master, text);
    Vault {
        version: 1,
        header: Header { slots: Some(slots), params: Some(params) },
        db: VaultDatabase::Encrypted(blob),
    }
}

fn flip_hex_bit(text: &str) -> String {
    let mut bytes = hex::decode(text).unwrap();
    bytes[0] ^= 0x01;
    hex::encode(bytes)
}

#[test]
fn cost_exponent_of_powers_of_two() {
    assert_eq!(cost_exponent(1), Some(0));
    assert_eq!(cost_exponent(2), Some(1));
    assert_eq!(cost_exponent(16), Some(4));
    assert_eq!(cost_exponent(32768), Some(15));
    assert_eq!(cost_exponent(0x8000_0000), Some(31));
}

#[test]
fn cost_exponent_rejects_other_numbers() {
    assert_eq!(cost_exponent(0), None);
    assert_eq!(cost_exponent(3), None);
    assert_eq!(cost_exponent(32767), None);
    assert_eq!(cost_exponent(32769), None);
    assert_eq!(cost_exponent(u32::MAX), None);
}

#[test]
fn derive_key_matches_published_vector() {
    let slot = PasswordSlot { n: 1024, r: 8, p: 16, salt: "4e61436c".to_string() };
    let key = derive_key(b"password", &slot).unwrap();
    assert_eq!(
        hex::encode(key),
        "fdbabe1c9d3472007856e7190d01e9fe7c6ad7cbc8237830e77376634b373162"
    );
}

#[test]
fn derive_key_matches_direct_scrypt() {
    let slot = PasswordSlot { n: 16, r: 8, p: 1, salt: "0102030405060708".to_string() };
    let key = derive_key("hunter2".as_bytes(), &slot).unwrap();
    assert_eq!(key.len(), 32);
    assert_eq!(key, kdf("hunter2", 16));
    assert_ne!(key, kdf("hunter3", 16));
}

#[test]
fn derive_key_accepts_upper_case_salt() {
    let lower = PasswordSlot { n: 16, r: 8, p: 1, salt: "0a0b0c0d".to_string() };
    let upper = PasswordSlot { n: 16, r: 8, p: 1, salt: "0A0B0C0D".to_string() };
    assert_eq!(derive_key(b"pw", &lower), derive_key(b"pw", &upper));
}

#[test]
fn derive_key_rejects_bad_salt_text() {
    let odd = PasswordSlot { n: 16, r: 8, p: 1, salt: "010".to_string() };
    assert_eq!(derive_key(b"pw", &odd), Err(ParameterError::SaltEncoding));
    let not_hex = PasswordSlot { n: 16, r: 8, p: 1, salt: "01zz".to_string() };
    assert_eq!(derive_key(b"pw", &not_hex), Err(ParameterError::SaltEncoding));
    let not_ascii = PasswordSlot { n: 16, r: 8, p: 1, salt: "0\u{e9}".to_string() };
    assert_eq!(derive_key(b"pw", &not_ascii), Err(ParameterError::SaltEncoding));
}

#[test]
fn derive_key_rejects_work_factor_that_is_no_power_of_two() {
    let slot = PasswordSlot { n: 1000, r: 8, p: 1, salt: "0102030405060708".to_string() };
    assert_eq!(derive_key(b"pw", &slot), Err(ParameterError::WorkFactor));
}

#[test]
fn derive_key_rejects_what_scrypt_refuses() {
    let short_salt = PasswordSlot { n: 16, r: 8, p: 1, salt: "0102".to_string() };
    assert_eq!(derive_key(b"pw", &short_salt), Err(ParameterError::Rejected));
    let empty_salt = PasswordSlot { n: 16, r: 8, p: 1, salt: String::new() };
    assert_eq!(derive_key(b"pw", &empty_salt), Err(ParameterError::Rejected));
    let long_salt = PasswordSlot { n: 16, r: 8, p: 1, salt: "ab".repeat(49) };
    assert_eq!(derive_key(b"pw", &long_salt), Err(ParameterError::Rejected));
    let no_blocks = PasswordSlot { n: 16, r: 0, p: 1, salt: "0102030405060708".to_string() };
    assert_eq!(derive_key(b"pw", &no_blocks), Err(ParameterError::Rejected));
    let no_lanes = PasswordSlot { n: 16, r: 8, p: 0, salt: "0102030405060708".to_string() };
    assert_eq!(derive_key(b"pw", &no_lanes), Err(ParameterError::Rejected));
    let no_work = PasswordSlot { n: 1, r: 8, p: 1, salt: "0102030405060708".to_string() };
    assert_eq!(derive_key(b"pw", &no_work).is_ok(), true);
}

#[test]
fn slot_yields_master_key_for_its_password() {
    let master = master_key(1);
    let slot = password_slot("correct horse", &master);
    assert_eq!(decrypt_master_key("correct horse", &slot), Ok(master));
}

#[test]
fn slot_rejects_other_password() {
    let slot = password_slot("correct horse", &master_key(1));
    assert_eq!(
        decrypt_master_key("incorrect horse", &slot),
        Err(DecryptionError::IncorrectPassword)
    );
}

#[test]
fn slot_rejects_tampered_key_or_tag() {
    let slot = password_slot("pw", &master_key(1));
    let mut bad_key = slot.clone();
    bad_key.key = flip_hex_bit(&slot.key);
    assert_eq!(decrypt_master_key("pw", &bad_key), Err(DecryptionError::IncorrectPassword));
    let mut bad_tag = slot.clone();
    bad_tag.key_params.tag = flip_hex_bit(&slot.key_params.tag);
    assert_eq!(decrypt_master_key("pw", &bad_tag), Err(DecryptionError::IncorrectPassword));
    let mut bad_nonce = slot.clone();
    bad_nonce.key_params.nonce = flip_hex_bit(&slot.key_params.nonce);
    assert_eq!(decrypt_master_key("pw", &bad_nonce), Err(DecryptionError::IncorrectPassword));
    let mut short_tag = slot.clone();
    short_tag.key = String::new();
    short_tag.key_params.tag = "00".to_string();
    assert_eq!(decrypt_master_key("pw", &short_tag), Err(DecryptionError::IncorrectPassword));
}

#[test]
fn slot_of_other_kind_is_never_tried() {
    assert_eq!(
        decrypt_master_key("pw", &plain_slot(SlotType::Raw)),
        Err(DecryptionError::ParamError(SlotFault::NotPasswordSlot))
    );
    assert_eq!(
        decrypt_master_key("pw", &plain_slot(SlotType::Biometric)),
        Err(DecryptionError::ParamError(SlotFault::NotPasswordSlot))
    );
}

#[test]
fn slot_faults_are_reported_by_part() {
    let good = password_slot("pw", &master_key(1));
    let mut slot = good.clone();
    slot.slot_type = SlotType::Password(PasswordSlot { n: 17, r: 8, p: 1, salt: hex::encode(SALT) });
    assert_eq!(
        decrypt_master_key("pw", &slot),
        Err(DecryptionError::ParamError(SlotFault::KeyDerivation(ParameterError::WorkFactor)))
    );
    let mut slot = good.clone();
    slot.slot_type = SlotType::Password(PasswordSlot { n: 16, r: 8, p: 1, salt: "xy".to_string() });
    assert_eq!(
        decrypt_master_key("pw", &slot),
        Err(DecryptionError::ParamError(SlotFault::KeyDerivation(ParameterError::SaltEncoding)))
    );
    let mut slot = good.clone();
    slot.key_params.nonce = "nonce".to_string();
    assert_eq!(decrypt_master_key("pw", &slot), Err(DecryptionError::ParamError(SlotFault::Nonce)));
    let mut slot = good.clone();
    slot.key_params.nonce = "0102".to_string();
    assert_eq!(decrypt_master_key("pw", &slot), Err(DecryptionError::ParamError(SlotFault::Nonce)));
    let mut slot = good.clone();
    slot.key = "0g".to_string();
    assert_eq!(decrypt_master_key("pw", &slot), Err(DecryptionError::ParamError(SlotFault::Key)));
    let mut slot = good.clone();
    slot.key_params.tag = "abc".to_string();
    assert_eq!(decrypt_master_key("pw", &slot), Err(DecryptionError::ParamError(SlotFault::Tag)));
    let mut slot = good.clone();
    slot.key = "0g".to_string();
    slot.key_params.nonce = "zz".to_string();
    assert_eq!(decrypt_master_key("pw", &slot), Err(DecryptionError::ParamError(SlotFault::Nonce)));
}

#[test]
fn resolver_passes_over_failing_slot() {
    let master = master_key(2);
    let slots = vec![password_slot("other", &master_key(3)), password_slot("mine", &master)];
    assert_eq!(try_decrypt_master_key("mine", &slots), Ok(master.clone()));
    assert_eq!(try_decrypt_master_key("mine", &slots[1..]), Ok(master));
}

#[test]
fn resolver_passes_over_malformed_and_other_slots() {
    let master = master_key(4);
    let mut malformed = password_slot("mine", &master_key(5));
    malformed.key_params.nonce = "not hex".to_string();
    let slots = vec![
        plain_slot(SlotType::Raw),
        malformed,
        plain_slot(SlotType::Biometric),
        password_slot("mine", &master),
    ];
    assert_eq!(try_decrypt_master_key("mine", &slots), Ok(master));
}

#[test]
fn resolver_returns_first_slot_that_opens() {
    let first = master_key(6);
    let second = master_key(7);
    let slots = vec![password_slot("mine", &first), password_slot("mine", &second)];
    assert_eq!(try_decrypt_master_key("mine", &slots), Ok(first));
}

#[test]
fn resolver_fails_when_no_slot_opens() {
    let slots = vec![password_slot("theirs", &master_key(8))];
    assert_eq!(try_decrypt_master_key("mine", &slots), Err(VaultError::MasterKeyRecoveryFailed));
    assert_eq!(try_decrypt_master_key("mine", &[]), Err(VaultError::MasterKeyRecoveryFailed));
    let others = vec![plain_slot(SlotType::Raw), plain_slot(SlotType::Biometric)];
    assert_eq!(try_decrypt_master_key("mine", &others), Err(VaultError::MasterKeyRecoveryFailed));
}

#[test]
fn database_text_is_recovered() {
    let master = master_key(9);
    let (params, blob) = sealed_database(&master, DB_TEXT.as_bytes());
    assert_eq!(decrypt_database(&params, &master, &blob), Ok(DB_TEXT.to_string()));
}

#[test]
fn database_text_keeps_non_ascii_characters() {
    let master = master_key(9);
    let text = "{\"name\":\"caf\u{e9} \u{1f511}\"}";
    let (params, blob) = sealed_database(&master, text.as_bytes());
    assert_eq!(decrypt_database(&params, &master, &blob), Ok(text.to_string()));
}

#[test]
fn database_tampering_is_detected() {
    let master = master_key(10);
    let (params, blob) = sealed_database(&master, DB_TEXT.as_bytes());

    let mut bytes = base64::engine::general_purpose::STANDARD.decode(&blob).unwrap();
    bytes[3] ^= 0x20;
    let bad_blob = base64::engine::general_purpose::STANDARD.encode(bytes);
    assert_eq!(decrypt_database(&params, &master, &bad_blob), Err(VaultError::AuthenticationFailed));

    let bad_tag = KeyParams { nonce: params.nonce.clone(), tag: flip_hex_bit(&params.tag) };
    assert_eq!(decrypt_database(&bad_tag, &master, &blob), Err(VaultError::AuthenticationFailed));

    let mut bad_key = master.clone();
    bad_key[31] ^= 0x80;
    assert_eq!(decrypt_database(&params, &bad_key, &blob), Err(VaultError::AuthenticationFailed));

    let bad_nonce = KeyParams { nonce: flip_hex_bit(&params.nonce), tag: params.tag.clone() };
    assert_eq!(decrypt_database(&bad_nonce, &master, &blob), Err(VaultError::AuthenticationFailed));
}

#[test]
fn database_errors_by_cause() {
    let master = master_key(11);
    let (params, blob) = sealed_database(&master, DB_TEXT.as_bytes());

    assert_eq!(decrypt_database(&params, &master, "***"), Err(VaultError::EncodingError));
    let bad_tag = KeyParams { nonce: params.nonce.clone(), tag: "tag".to_string() };
    assert_eq!(decrypt_database(&bad_tag, &master, &blob), Err(VaultError::FormatError));
    let bad_nonce = KeyParams { nonce: "0".to_string(), tag: params.tag.clone() };
    assert_eq!(decrypt_database(&bad_nonce, &master, &blob), Err(VaultError::FormatError));
    let short_nonce = KeyParams { nonce: "00".repeat(11), tag: params.tag.clone() };
    assert_eq!(decrypt_database(&short_nonce, &master, &blob), Err(VaultError::FormatError));
    let short_key = master[..31].to_vec();
    assert_eq!(decrypt_database(&params, &short_key, &blob), Err(VaultError::AuthenticationFailed));

    let (params, blob) = sealed_database(&master, &[0xff, 0xfe, 0x00]);
    assert_eq!(decrypt_database(&params, &master, &blob), Err(VaultError::EncodingError));
}

#[test]
fn vault_round_trip_with_single_slot() {
    let master = master_key(12);
    let vault = vault_for(vec![password_slot("s3cret", &master)], &master, DB_TEXT.as_bytes());
    assert_eq!(decrypt("s3cret", vault), Ok(DB_TEXT.to_string()));
}

#[test]
fn vault_rejects_wrong_password() {
    let master = master_key(12);
    let vault = vault_for(vec![password_slot("s3cret", &master)], &master, DB_TEXT.as_bytes());
    assert_eq!(decrypt("secret", vault.clone()), Err(VaultError::MasterKeyRecoveryFailed));
    assert_eq!(decrypt("", vault), Err(VaultError::MasterKeyRecoveryFailed));
}

#[test]
fn vault_with_two_slots_opens_with_second() {
    let master = master_key(13);
    let slots = vec![password_slot("first", &master), password_slot("second", &master)];
    let vault = vault_for(slots, &master, DB_TEXT.as_bytes());
    assert_eq!(decrypt("second", vault.clone()), Ok(DB_TEXT.to_string()));
    assert_eq!(decrypt("first", vault), Ok(DB_TEXT.to_string()));
}

#[test]
fn vault_with_foreign_master_key_fails_authentication() {
    let master = master_key(14);
    let vault = vault_for(vec![password_slot("pw", &master_key(15))], &master, DB_TEXT.as_bytes());
    assert_eq!(decrypt("pw", vault), Err(VaultError::AuthenticationFailed));
}

#[test]
fn vault_with_inconsistent_header_is_malformed() {
    let master = master_key(16);
    let good = vault_for(vec![password_slot("pw", &master)], &master, DB_TEXT.as_bytes());

    let mut no_slots = good.clone();
    no_slots.header.slots = None;
    assert_eq!(decrypt("pw", no_slots), Err(VaultError::FormatError));

    let mut no_params = good.clone();
    no_params.header.params = None;
    assert_eq!(decrypt("pw", no_params), Err(VaultError::FormatError));

    let mut plain = good.clone();
    plain.db = VaultDatabase::Plain(aegis_vault::Database { version: 2, entries: vec![] });
    assert_eq!(decrypt("pw", plain.clone()), Err(VaultError::FormatError));
    assert_eq!(decrypt("wrong", plain), Err(VaultError::MasterKeyRecoveryFailed));
}

#[test]
fn kdf_input_decodes_salt_and_work_factor() {
    let slot = PasswordSlot { n: 32768, r: 8, p: 1, salt: "00ff10aB".to_string() };
    assert_eq!(kdf_input(&slot), Ok((vec![0x00, 0xff, 0x10, 0xab], 15)));
    let slot = PasswordSlot { n: 1, r: 0, p: 0, salt: "4e61436c".to_string() };
    assert_eq!(kdf_input(&slot), Ok((b"NaCl".to_vec(), 0)));
}

#[test]
fn kdf_input_reports_first_fault() {
    let slot = PasswordSlot { n: 3, r: 8, p: 1, salt: "0".to_string() };
    assert_eq!(kdf_input(&slot), Err(ParameterError::SaltEncoding));
    let slot = PasswordSlot { n: 3, r: 8, p: 1, salt: "00".to_string() };
    assert_eq!(kdf_input(&slot), Err(ParameterError::WorkFactor));
    let slot = PasswordSlot { n: 4, r: 8, p: 1, salt: "0000".to_string() };
    assert_eq!(kdf_input(&slot), Err(ParameterError::Rejected));
    let slot = PasswordSlot { n: 4, r: 8, p: 1, salt: "000000".to_string() };
    assert_eq!(kdf_input(&slot), Ok((vec![0, 0, 0], 2)));
}

#[test]
fn slot_ciphertext_joins_key_and_tag() {
    let slot = Slot {
        slot_type: SlotType::Raw,
        key: "0A0b".to_string(),
        key_params: KeyParams {
            nonce: "000102030405060708090a0b".to_string(),
            tag: "fffe".to_string(),
        },
    };
    assert_eq!(
        slot_ciphertext(&slot),
        Ok(Sealed {
            nonce: vec![0, 1, 2, 3, 4, 5, 6, 7, 8, 9, 10, 11],
            bytes: vec![0x0a, 0x0b, 0xff, 0xfe],
        })
    );
}

#[test]
fn slot_ciphertext_reports_first_fault() {
    let good = Slot {
        slot_type: SlotType::Biometric,
        key: "00".to_string(),
        key_params: KeyParams { nonce: "00".repeat(12), tag: "00".to_string() },
    };
    let mut slot = good.clone();
    slot.key_params.nonce = "00".repeat(13);
    assert_eq!(slot_ciphertext(&slot), Err(SlotFault::Nonce));
    slot.key_params.tag = "x".to_string();
    assert_eq!(slot_ciphertext(&slot), Err(SlotFault::Tag));
    slot.key = "x".to_string();
    assert_eq!(slot_ciphertext(&slot), Err(SlotFault::Key));
    slot.key_params.nonce = "x".to_string();
    assert_eq!(slot_ciphertext(&slot), Err(SlotFault::Nonce));
}

#[test]
fn database_ciphertext_appends_tag() {
    let params = KeyParams { nonce: "0c".repeat(12), tag: "0102".to_string() };
    assert_eq!(
        database_ciphertext(&params, vec![9, 8]),
        Ok(Sealed { nonce: vec![12; 12], bytes: vec![9, 8, 1, 2] })
    );
    let empty_tag = KeyParams { nonce: "0c".repeat(12), tag: String::new() };
    assert_eq!(
        database_ciphertext(&empty_tag, vec![]),
        Ok(Sealed { nonce: vec![12; 12], bytes: vec![] })
    );
}

#[test]
fn database_ciphertext_rejects_malformed_parameters() {
    let bad_tag = KeyParams { nonce: "0c".repeat(12), tag: "1".to_string() };
    assert_eq!(database_ciphertext(&bad_tag, vec![1]), Err(VaultError::FormatError));
    let bad_nonce = KeyParams { nonce: "0c0".to_string(), tag: "01".to_string() };
    assert_eq!(database_ciphertext(&bad_nonce, vec![1]), Err(VaultError::FormatError));
    let long_nonce = KeyParams { nonce: "0c".repeat(16), tag: "01".to_string() };
    assert_eq!(database_ciphertext(&long_nonce, vec![1]), Err(VaultError::FormatError));
}

#[test]
fn database_plaintext_by_outcome() {
    assert_eq!(database_plaintext(None), Err(VaultError::AuthenticationFailed));
    assert_eq!(database_plaintext(Some(vec![])), Ok(String::new()));
    assert_eq!(database_plaintext(Some(b"{}".to_vec())), Ok("{}".to_string()));
    assert_eq!(
        database_plaintext(Some(vec![0xc3, 0xa9, 0xf0, 0x9f, 0x94, 0x91])),
        Ok("\u{e9}\u{1f511}".to_string())
    );
    assert_eq!(database_plaintext(Some(vec![0xc3])), Err(VaultError::EncodingError));
    assert_eq!(database_plaintext(Some(vec![0xed, 0xa0, 0x80])), Err(VaultError::EncodingError));
}

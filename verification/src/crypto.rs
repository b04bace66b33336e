//! The encryption header of a vault and the recovery of what it protects.
use vstd::prelude::*;
use vstd::utf8::{decode_utf8, encode_utf8, valid_utf8};
use crate::cipher::{aes256_gcm_open, aes256_gcm_plaintext, KEY_LEN, NONCE_LEN};
use crate::encoding::{
    base64_decode, base64_standard, bytes_of, hex_bytes, hex_decode, is_hex, utf8_text,
};
use crate::kdf::{derive_key, derived_key, ParameterError, PasswordSlot};
use crate::{Vault, VaultDatabase, VaultError};

verus! {

/// AES-GCM parameters stored beside one ciphertext.
#[derive(Debug, Clone, PartialEq, Eq)]
pub struct KeyParams {
    /// Nonce, as hexadecimal text.
    pub nonce: String,
    /// Authentication tag, as hexadecimal text.
    pub tag: String,
}

/// The ways of unlocking a slot.
#[derive(Debug, Clone, PartialEq, Eq)]
pub enum SlotType {
    Raw,
    Password(PasswordSlot),
    Biometric,
}

/// One wrapped copy of the master key.
#[derive(Debug, Clone, PartialEq, Eq)]
pub struct Slot {
    pub slot_type: SlotType,
    /// Wrapped master key, as hexadecimal text.
    pub key: String,
    pub key_params: KeyParams,
}

/// Encryption header of a vault.
#[derive(Debug, Clone, PartialEq, Eq)]
pub struct Header {
    /// Master-key slots; absent in a plaintext vault.
    pub slots: Option<Vec<Slot>>,
    /// Parameters of the database ciphertext; absent in a plaintext vault.
    pub params: Option<KeyParams>,
}

/// The part of a slot that is malformed.
#[derive(Debug, Clone, Copy, PartialEq, Eq)]
pub enum SlotFault {
    /// The slot is not unlocked by a password.
    NotPasswordSlot,
    /// No key can be derived under the slot's parameters.
    KeyDerivation(ParameterError),
    /// The nonce is not hexadecimal text of twelve bytes.
    Nonce,
    /// The wrapped key is not hexadecimal text.
    Key,
    /// The tag is not hexadecimal text.
    Tag,
}

/// Why one slot did not yield the master key. Neither outcome ends the
/// search through the remaining slots.
#[derive(Debug, Clone, Copy, PartialEq, Eq)]
pub enum DecryptionError {
    /// The slot is well formed and its tag does not verify under the
    /// password.
    IncorrectPassword,
    /// The slot cannot be tried at all.
    ParamError(SlotFault),
}

/// A nonce and the bytes that the cipher opens with it: a ciphertext
/// followed by its tag.
#[derive(Debug, Clone, PartialEq, Eq)]
pub struct Sealed {
    pub nonce: Vec<u8>,
    pub bytes: Vec<u8>,
}

impl Sealed {
    /// The nonce has the length that the cipher takes.
    pub open spec fn well_formed(&self) -> bool {
        self.nonce@.len() == NONCE_LEN
    }
}

impl Header {
    /// Slots and database parameters are present together or absent
    /// together.
    pub open spec fn consistent(&self) -> bool {
        self.slots is Some <==> self.params is Some
    }

    /// Whether both the slots and the database parameters are present.
    pub open spec fn spec_is_set(&self) -> bool {
        self.slots is Some && self.params is Some
    }

    /// Whether both the slots and the database parameters are present.
    #[verifier::when_used_as_spec(spec_is_set)]
    pub fn is_set(&self) -> (r: bool)
        ensures
            r == self.spec_is_set(),
    {
        self.slots.is_some() && self.params.is_some()
    }
}

/// The nonce of a slot and its wrapped key followed by the tag: what the
/// cipher is given for that slot.
pub open spec fn slot_sealed(slot: Slot) -> Result<(Seq<u8>, Seq<u8>), SlotFault> {
    if !is_hex(slot.key_params.nonce@) {
        Err(SlotFault::Nonce)
    } else if !is_hex(slot.key@) {
        Err(SlotFault::Key)
    } else if !is_hex(slot.key_params.tag@) {
        Err(SlotFault::Tag)
    } else if hex_bytes(slot.key_params.nonce@).len() != NONCE_LEN {
        Err(SlotFault::Nonce)
    } else {
        Ok(
            (
                hex_bytes(slot.key_params.nonce@),
                hex_bytes(slot.key@) + hex_bytes(slot.key_params.tag@),
            ),
        )
    }
}

/// The outcome of trying one slot with a password.
pub open spec fn slot_trial(password: Seq<u8>, slot: Slot) -> Result<Seq<u8>, DecryptionError> {
    match slot.slot_type {
        SlotType::Password(kdf) => match derived_key(password, kdf) {
            Err(e) => Err(DecryptionError::ParamError(SlotFault::KeyDerivation(e))),
            Ok(key) => match slot_sealed(slot) {
                Err(fault) => Err(DecryptionError::ParamError(fault)),
                Ok((nonce, sealed)) => match aes256_gcm_plaintext(key, nonce, sealed) {
                    Some(master_key) => Ok(master_key),
                    None => Err(DecryptionError::IncorrectPassword),
                },
            },
        },
        _ => Err(DecryptionError::ParamError(SlotFault::NotPasswordSlot)),
    }
}

/// The master key that the first successful slot yields, in header order.
pub open spec fn resolved_key(password: Seq<u8>, slots: Seq<Slot>) -> Option<Seq<u8>>
    decreases slots.len(),
{
    if slots.len() == 0 {
        None
    } else {
        match slot_trial(password, slots[0]) {
            Ok(master_key) => Some(master_key),
            Err(_) => resolved_key(password, slots.subrange(1, slots.len() as int)),
        }
    }
}

/// The nonce of the database and its ciphertext followed by the tag: what
/// the cipher is given for the database.
pub open spec fn database_sealed(params: KeyParams, blob: Seq<u8>) -> Result<
    (Seq<u8>, Seq<u8>),
    VaultError,
> {
    if !is_hex(params.tag@) || !is_hex(params.nonce@) {
        Err(VaultError::FormatError)
    } else if hex_bytes(params.nonce@).len() != NONCE_LEN {
        Err(VaultError::FormatError)
    } else {
        Ok((hex_bytes(params.nonce@), blob + hex_bytes(params.tag@)))
    }
}

/// The text that the outcome of opening the database stands for.
pub open spec fn plaintext_text(opened: Option<Seq<u8>>) -> Result<Seq<char>, VaultError> {
    match opened {
        None => Err(VaultError::AuthenticationFailed),
        Some(plain) => if valid_utf8(plain) {
            Ok(decode_utf8(plain))
        } else {
            Err(VaultError::EncodingError)
        },
    }
}

/// The text of the database that a master key recovers from the base64
/// blob and its parameters.
pub open spec fn database_text(
    params: KeyParams,
    master_key: Seq<u8>,
    encrypted_db: Seq<char>,
) -> Result<Seq<char>, VaultError> {
    match base64_standard(encrypted_db) {
        None => Err(VaultError::EncodingError),
        Some(blob) => match database_sealed(params, blob) {
            Err(e) => Err(e),
            Ok((nonce, sealed)) => if master_key.len() != KEY_LEN {
                Err(VaultError::AuthenticationFailed)
            } else {
                plaintext_text(aes256_gcm_plaintext(master_key, nonce, sealed))
            },
        },
    }
}

/// The database text that a password recovers from a vault.
pub open spec fn decrypted_text(password: Seq<u8>, vault: Vault) -> Result<Seq<char>, VaultError> {
    match (vault.header.slots, vault.header.params) {
        (Some(slots), Some(params)) => match resolved_key(password, slots@) {
            None => Err(VaultError::MasterKeyRecoveryFailed),
            Some(master_key) => match vault.db {
                VaultDatabase::Encrypted(blob) => database_text(params, master_key, blob@),
                VaultDatabase::Plain(_) => Err(VaultError::FormatError),
            },
        },
        _ => Err(VaultError::FormatError),
    }
}

/// Decodes the nonce, the wrapped key and the tag of a slot, and joins key
/// and tag as the cipher expects them.
pub fn slot_ciphertext(slot: &Slot) -> (r: Result<Sealed, SlotFault>)
    ensures
        match slot_sealed(*slot) {
            Ok((nonce, sealed)) => r matches Ok(s) && s.nonce@ == nonce && s.bytes@ == sealed
                && s.well_formed(),
            Err(fault) => r == Err::<Sealed, SlotFault>(fault),
        },
{
    let nonce = match hex_decode(slot.key_params.nonce.as_str()) {
        Some(nonce) => nonce,
        None => {
            return Err(SlotFault::Nonce);
        },
    };
    let mut bytes = match hex_decode(slot.key.as_str()) {
        Some(key) => key,
        None => {
            return Err(SlotFault::Key);
        },
    };
    let tag = match hex_decode(slot.key_params.tag.as_str()) {
        Some(tag) => tag,
        None => {
            return Err(SlotFault::Tag);
        },
    };
    if nonce.len() != NONCE_LEN {
        return Err(SlotFault::Nonce);
    }
    let ghost wrapped = bytes@;
    bytes.extend_from_slice(tag.as_slice());
    assert(bytes@ =~= wrapped + tag@);
    Ok(Sealed { nonce, bytes })
}

/// Tries one slot: derives the key from the password and opens the wrapped
/// master key with it.
pub fn decrypt_master_key(password: &str, slot: &Slot) -> (r: Result<Vec<u8>, DecryptionError>)
    ensures
        match slot_trial(encode_utf8(password@), *slot) {
            Ok(master_key) => r matches Ok(k) && k@ == master_key,
            Err(e) => r == Err::<Vec<u8>, DecryptionError>(e),
        },
{
    let password_slot = match &slot.slot_type {
        SlotType::Password(kdf) => kdf,
        _ => {
            return Err(DecryptionError::ParamError(SlotFault::NotPasswordSlot));
        },
    };
    let derived = match derive_key(password.as_bytes(), password_slot) {
        Ok(key) => key,
        Err(e) => {
            return Err(DecryptionError::ParamError(SlotFault::KeyDerivation(e)));
        },
    };
    let sealed = match slot_ciphertext(slot) {
        Ok(sealed) => sealed,
        Err(fault) => {
            return Err(DecryptionError::ParamError(fault));
        },
    };
    match aes256_gcm_open(derived.as_slice(), sealed.nonce.as_slice(), sealed.bytes.as_slice()) {
        Some(master_key) => Ok(master_key),
        None => Err(DecryptionError::IncorrectPassword),
    }
}

/// Tries the slots in header order and returns the master key of the first
/// one that the password opens. A slot that fails, for whatever reason, is
/// passed over.
pub fn try_decrypt_master_key(password: &str, slots: &[Slot]) -> (r: Result<Vec<u8>, VaultError>)
    ensures
        match resolved_key(encode_utf8(password@), slots@) {
            Some(master_key) => r matches Ok(k) && k@ == master_key,
            None => r == Err::<Vec<u8>, VaultError>(VaultError::MasterKeyRecoveryFailed),
        },
{
    let mut i: usize = 0;
    assert(slots@.subrange(0, slots@.len() as int) =~= slots@);
    while i < slots.len()
        invariant
            i <= slots@.len(),
            resolved_key(encode_utf8(password@), slots@) == resolved_key(
                encode_utf8(password@),
                slots@.subrange(i as int, slots@.len() as int),
            ),
        decreases slots@.len() - i,
    {
        let ghost rest = slots@.subrange(i as int, slots@.len() as int);
        assert(rest[0] == slots@[i as int]);
        assert(rest.subrange(1, rest.len() as int) =~= slots@.subrange(
            i as int + 1,
            slots@.len() as int,
        ));
        match decrypt_master_key(password, &slots[i]) {
            Ok(master_key) => {
                return Ok(master_key);
            },
            Err(_) => {},
        }
        i = i + 1;
    }
    Err(VaultError::MasterKeyRecoveryFailed)
}

/// Decodes the nonce and the tag of the database, and joins the decoded
/// blob and the tag as the cipher expects them.
pub fn database_ciphertext(params: &KeyParams, blob: Vec<u8>) -> (r: Result<Sealed, VaultError>)
    ensures
        match database_sealed(*params, blob@) {
            Ok((nonce, sealed)) => r matches Ok(s) && s.nonce@ == nonce && s.bytes@ == sealed
                && s.well_formed(),
            Err(e) => r == Err::<Sealed, VaultError>(e),
        },
{
    let mut bytes = blob;
    let tag = match hex_decode(params.tag.as_str()) {
        Some(tag) => tag,
        None => {
            return Err(VaultError::FormatError);
        },
    };
    let nonce = match hex_decode(params.nonce.as_str()) {
        Some(nonce) => nonce,
        None => {
            return Err(VaultError::FormatError);
        },
    };
    if nonce.len() != NONCE_LEN {
        return Err(VaultError::FormatError);
    }
    bytes.extend_from_slice(tag.as_slice());
    assert(bytes@ =~= blob@ + tag@);
    Ok(Sealed { nonce, bytes })
}

/// Turns the outcome of opening the database into its text: a failed
/// authentication is fatal, and what was authenticated must be UTF-8.
pub fn database_plaintext(opened: Option<Vec<u8>>) -> (r: Result<String, VaultError>)
    ensures
        match plaintext_text(bytes_of(opened)) {
            Ok(text) => r matches Ok(s) && s@ == text,
            Err(e) => r == Err::<String, VaultError>(e),
        },
{
    let plain = match opened {
        Some(plain) => plain,
        None => {
            return Err(VaultError::AuthenticationFailed);
        },
    };
    match utf8_text(plain) {
        Some(text) => Ok(text),
        None => Err(VaultError::EncodingError),
    }
}

/// Opens the database blob with the master key and returns its text.
pub fn decrypt_database(
    params: &KeyParams,
    master_key: &Vec<u8>,
    encrypted_db: &str,
) -> (r: Result<String, VaultError>)
    ensures
        match database_text(*params, master_key@, encrypted_db@) {
            Ok(text) => r matches Ok(s) && s@ == text,
            Err(e) => r == Err::<String, VaultError>(e),
        },
{
    let blob = match base64_decode(encrypted_db) {
        Some(blob) => blob,
        None => {
            return Err(VaultError::EncodingError);
        },
    };
    let sealed = match database_ciphertext(params, blob) {
        Ok(sealed) => sealed,
        Err(e) => {
            return Err(e);
        },
    };
    if master_key.len() != KEY_LEN {
        return Err(VaultError::AuthenticationFailed);
    }
    database_plaintext(
        aes256_gcm_open(master_key.as_slice(), sealed.nonce.as_slice(), sealed.bytes.as_slice()),
    )
}

/// Recovers the text of the database of an encrypted vault with a password.
pub fn decrypt(password: &str, vault: Vault) -> (r: Result<String, VaultError>)
    ensures
        match decrypted_text(encode_utf8(password@), vault) {
            Ok(text) => r matches Ok(s) && s@ == text,
            Err(e) => r == Err::<String, VaultError>(e),
        },
{
    let slots = match vault.header.slots {
        Some(slots) => slots,
        None => {
            return Err(VaultError::FormatError);
        },
    };
    let params = match vault.header.params {
        Some(params) => params,
        None => {
            return Err(VaultError::FormatError);
        },
    };
    let master_key = match try_decrypt_master_key(password, slots.as_slice()) {
        Ok(master_key) => master_key,
        Err(e) => {
            return Err(e);
        },
    };
    match vault.db {
        VaultDatabase::Encrypted(blob) => decrypt_database(&params, &master_key, blob.as_str()),
        VaultDatabase::Plain(_) => Err(VaultError::FormatError),
    }
}

} // verus!

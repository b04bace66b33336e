//! What holds of the recovery of a vault, whatever the vault and password.
use vstd::prelude::*;
use vstd::utf8::{encode_utf8, encode_utf8_decode_utf8, encode_utf8_valid_utf8};
use crate::cipher::{aes256_gcm_plaintext, KEY_LEN};
use crate::crypto::{
    database_sealed, database_text, decrypted_text, resolved_key, slot_trial, DecryptionError,
    KeyParams, Slot,
};
use crate::encoding::base64_standard;
use crate::{extracted, follows, Action, Database, Event, Vault, VaultDatabase, VaultError};

verus! {

/// A slot that fails is passed over: the search goes on with the slots
/// behind it, and its failure decides nothing.
pub proof fn lemma_failed_slot_skipped(password: Seq<u8>, first: Slot, rest: Seq<Slot>)
    requires
        slot_trial(password, first) is Err,
    ensures
        resolved_key(password, seq![first] + rest) == resolved_key(password, rest),
{
    let all = seq![first] + rest;
    assert(all[0] == first);
    assert(all.subrange(1, all.len() as int) =~= rest);
}

/// A slot that opens ends the search: its master key is the result, whatever
/// stands behind it.
pub proof fn lemma_first_success_wins(password: Seq<u8>, first: Slot, rest: Seq<Slot>)
    requires
        slot_trial(password, first) is Ok,
    ensures
        resolved_key(password, seq![first] + rest) == Some(slot_trial(password, first)->Ok_0),
{
    let all = seq![first] + rest;
    assert(all[0] == first);
}

/// With a slot that fails before a slot that opens, resolution yields the
/// master key of the second, which is also what the second yields alone.
pub proof fn lemma_second_slot_resolves(password: Seq<u8>, failing: Slot, opening: Slot)
    requires
        slot_trial(password, failing) is Err,
        slot_trial(password, opening) is Ok,
    ensures
        resolved_key(password, seq![failing, opening]) == resolved_key(password, seq![opening]),
        resolved_key(password, seq![opening]) == Some(slot_trial(password, opening)->Ok_0),
{
    lemma_failed_slot_skipped(password, failing, seq![opening]);
    assert(seq![failing] + seq![opening] =~= seq![failing, opening]);
    lemma_first_success_wins(password, opening, Seq::empty());
    assert(seq![opening] + Seq::<Slot>::empty() =~= seq![opening]);
}

/// Resolution yields the master key of the first slot that opens, and
/// nothing where no slot opens.
pub proof fn lemma_resolved_key_is_first_success(password: Seq<u8>, slots: Seq<Slot>)
    ensures
        match resolved_key(password, slots) {
            Some(master_key) => exists|i: int|
                0 <= i < slots.len() && slot_trial(password, slots[i]) == Ok::<Seq<u8>, DecryptionError>(
                    master_key,
                ) && forall|j: int|
                    0 <= j < i ==> (#[trigger] slot_trial(password, slots[j])) is Err,
            None => forall|j: int|
                0 <= j < slots.len() ==> (#[trigger] slot_trial(password, slots[j])) is Err,
        },
    decreases slots.len(),
{
    if slots.len() > 0 {
        let rest = slots.subrange(1, slots.len() as int);
        match slot_trial(password, slots[0]) {
            Ok(master_key) => {
                assert(slot_trial(password, slots[0]) == Ok::<Seq<u8>, DecryptionError>(
                    master_key,
                ));
            },
            Err(_) => {
                lemma_resolved_key_is_first_success(password, rest);
                assert forall|j: int| 0 <= j < rest.len() implies rest[j] == slots[j + 1] by {}
                match resolved_key(password, rest) {
                    Some(master_key) => {
                        let i = choose|i: int|
                            0 <= i < rest.len() && slot_trial(password, rest[i]) == Ok::<
                                Seq<u8>,
                                DecryptionError,
                            >(master_key) && forall|j: int|
                                0 <= j < i ==> (#[trigger] slot_trial(password, rest[j])) is Err;
                        assert(rest[i] == slots[i + 1]);
                        assert forall|j: int| 0 <= j < i + 1 implies (#[trigger] slot_trial(
                            password,
                            slots[j],
                        )) is Err by {
                            if j > 0 {
                                assert(rest[j - 1] == slots[j]);
                            }
                        }
                        assert(slot_trial(password, slots[i + 1]) == Ok::<Seq<u8>, DecryptionError>(
                            master_key,
                        ));
                    },
                    None => {
                        assert forall|j: int| 0 <= j < slots.len() implies (#[trigger] slot_trial(
                            password,
                            slots[j],
                        )) is Err by {
                            if j > 0 {
                                assert(rest[j - 1] == slots[j]);
                            }
                        }
                    },
                }
            },
        }
    }
}

/// A password that opens none of the slots of an encrypted vault ends in
/// `MasterKeyRecoveryFailed`: no text comes out, whatever the database
/// holds.
pub proof fn lemma_no_slot_opens(password: Seq<u8>, vault: Vault)
    requires
        vault.spec_is_encrypted(),
        forall|j: int|
            0 <= j < vault.header.slots->Some_0@.len() ==> (#[trigger] slot_trial(
                password,
                vault.header.slots->Some_0@[j],
            )) is Err,
    ensures
        decrypted_text(password, vault) == Err::<Seq<char>, VaultError>(
            VaultError::MasterKeyRecoveryFailed,
        ),
{
    lemma_resolved_key_is_first_success(password, vault.header.slots->Some_0@);
}

/// A vault of another version than the supported one is refused with that
/// version, whatever its header and database hold.
pub proof fn lemma_version_gate(
    vault: Vault,
    password: String,
    r: Result<Action, VaultError>,
)
    requires
        vault.version != crate::VAULT_VERSION,
        follows(Event::VaultRead(Some(vault)), r) || follows(
            Event::PasswordGiven(vault, password),
            r,
        ),
    ensures
        r == Err::<Action, VaultError>(VaultError::UnsupportedVersion(vault.version)),
{
}

/// A vault without slots and parameters that holds a database of the
/// supported version yields that database's entries at once: no password is
/// asked for and nothing is decrypted.
pub proof fn lemma_plaintext_path(vault: Vault, db: Database, r: Result<Action, VaultError>)
    requires
        vault.version == crate::VAULT_VERSION,
        vault.header.slots is None,
        vault.header.params is None,
        vault.db == VaultDatabase::Plain(db),
        db.version == crate::DATABASE_VERSION,
        follows(Event::VaultRead(Some(vault)), r),
    ensures
        r == Ok::<Action, VaultError>(Action::Finish(db.entries)),
{
}

/// A well-formed vault is never refused before a password is known: a
/// plain one yields its entries, an encrypted one asks for the password.
pub proof fn lemma_well_formed_vault_is_accepted(vault: Vault)
    requires
        vault.well_formed(),
    ensures
        match vault.db {
            VaultDatabase::Plain(db) => extracted(vault) == Ok::<Action, VaultError>(
                Action::Finish(db.entries),
            ),
            VaultDatabase::Encrypted(_) => extracted(vault) == Ok::<Action, VaultError>(
                Action::AskPassword(vault),
            ),
        },
{
}

/// Where the cipher does not authenticate the database blob under the
/// master key, no text comes out; with well-formed parameters and a key of
/// the right length the error is `AuthenticationFailed`.
pub proof fn lemma_unauthenticated_database_fails(
    params: KeyParams,
    master_key: Seq<u8>,
    encrypted_db: Seq<char>,
)
    requires
        base64_standard(encrypted_db) matches Some(blob) ==> (database_sealed(
            params,
            blob,
        ) matches Ok((nonce, sealed)) ==> aes256_gcm_plaintext(master_key, nonce, sealed) is None),
    ensures
        database_text(params, master_key, encrypted_db) is Err,
        base64_standard(encrypted_db) matches Some(blob) && database_sealed(params, blob) is Ok
            && master_key.len() == KEY_LEN ==> database_text(params, master_key, encrypted_db)
            == Err::<Seq<char>, VaultError>(VaultError::AuthenticationFailed),
{
}

/// The same of the whole recovery: where a slot opens but the cipher does
/// not authenticate the database under the recovered master key, the
/// outcome is an error and never a text.
pub proof fn lemma_tampered_vault_fails(
    vault: Vault,
    password: String,
    master_key: Seq<u8>,
    r: Result<Action, VaultError>,
)
    requires
        vault.spec_is_encrypted(),
        resolved_key(encode_utf8(password@), vault.header.slots->Some_0@) == Some(master_key),
        vault.db matches VaultDatabase::Encrypted(text) ==> (base64_standard(text@) matches Some(
            blob,
        ) ==> (database_sealed(vault.header.params->Some_0, blob) matches Ok((nonce, sealed))
            ==> aes256_gcm_plaintext(master_key, nonce, sealed) is None)),
        follows(Event::PasswordGiven(vault, password), r),
    ensures
        r is Err,
{
    if vault.version == crate::VAULT_VERSION {
        if let VaultDatabase::Encrypted(text) = vault.db {
            lemma_unauthenticated_database_fails(vault.header.params->Some_0, master_key, text@);
        }
    }
}

/// Where a slot opens to a master key under which the cipher opens the
/// database blob to the UTF-8 encoding of a text, the recovery hands out
/// exactly that text to be read as the database.
pub proof fn lemma_sealed_text_is_recovered(
    vault: Vault,
    password: String,
    master_key: Seq<u8>,
    blob: Seq<u8>,
    text: Seq<char>,
    r: Result<Action, VaultError>,
)
    requires
        vault.well_formed(),
        vault.db matches VaultDatabase::Encrypted(encoded) && base64_standard(encoded@) == Some(
            blob,
        ),
        resolved_key(encode_utf8(password@), vault.header.slots->Some_0@) == Some(master_key),
        master_key.len() == KEY_LEN,
        database_sealed(vault.header.params->Some_0, blob) matches Ok((nonce, sealed))
            && aes256_gcm_plaintext(master_key, nonce, sealed) == Some(encode_utf8(text)),
        follows(Event::PasswordGiven(vault, password), r),
    ensures
        decrypted_text(encode_utf8(password@), vault) == Ok::<Seq<char>, VaultError>(text),
        r matches Ok(Action::ReadDatabase(s)) && s@ == text,
{
    encode_utf8_valid_utf8(text);
    encode_utf8_decode_utf8(text);
}

} // verus!

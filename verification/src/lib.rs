//! Recovery of one-time-password entries from an authenticator vault backup.
use vstd::prelude::*;
use vstd::utf8::encode_utf8;

pub mod cipher;
pub mod crypto;
pub mod encoding;
pub mod kdf;
pub mod theorems;

use crate::crypto::{decrypt, decrypted_text, Header};

verus! {

/// Version of the vault format that is understood.
pub const VAULT_VERSION: u32 = 1;

/// Version of the database format that is understood.
pub const DATABASE_VERSION: u32 = 2;

/// One stored account.
#[derive(Debug, Clone, PartialEq, Eq)]
pub struct Entry {
    /// Kind of one-time password (the `type` field of the document).
    pub entry_type: String,
    pub name: String,
    pub issuer: String,
    /// Parameters of the code generator, as JSON text.
    pub info: String,
}

/// The accounts of a vault.
#[derive(Debug, Clone, PartialEq, Eq)]
pub struct Database {
    pub version: u32,
    pub entries: Vec<Entry>,
}

/// The database as a vault holds it.
#[derive(Debug, Clone, PartialEq, Eq)]
pub enum VaultDatabase {
    /// Base64 text of the AES-GCM ciphertext.
    Encrypted(String),
    /// The database itself.
    Plain(Database),
}

/// A vault backup.
#[derive(Debug, Clone, PartialEq, Eq)]
pub struct Vault {
    pub version: u32,
    pub header: Header,
    pub db: VaultDatabase,
}

/// Why no entries could be recovered.
#[derive(Debug, Clone, Copy, PartialEq, Eq)]
pub enum VaultError {
    /// The document does not have the expected shape.
    FormatError,
    /// The vault or the database has this unsupported version.
    UnsupportedVersion(u32),
    /// The tag of the database ciphertext does not verify.
    AuthenticationFailed,
    /// No password slot yields the master key.
    MasterKeyRecoveryFailed,
    /// The database is not base64 outside, or not UTF-8 JSON inside.
    EncodingError,
}

/// What the reader of a vault has just obtained.
#[derive(Debug, Clone, PartialEq, Eq)]
pub enum Event {
    /// The vault document was read as JSON; `None` if it has another shape.
    VaultRead(Option<Vault>),
    /// The password for an encrypted vault.
    PasswordGiven(Vault, String),
    /// The decrypted text was read as JSON; `None` if it has another shape.
    DatabaseRead(Option<Database>),
}

/// What the reader of a vault does next.
#[derive(Debug, Clone, PartialEq, Eq)]
pub enum Action {
    /// Obtain the password and hand it back with the vault.
    AskPassword(Vault),
    /// Read this text as the JSON of a database.
    ReadDatabase(String),
    /// Done: these are the entries.
    Finish(Vec<Entry>),
}

impl Database {
    /// The database has the supported version.
    pub open spec fn well_formed(&self) -> bool {
        self.version == DATABASE_VERSION
    }
}

impl Vault {
    /// The vault has the supported version and is either encrypted
    /// throughout (slots, parameters and a base64 blob) or plain throughout
    /// (none of them, and a database of the supported version).
    pub open spec fn well_formed(&self) -> bool {
        &&& self.version == VAULT_VERSION
        &&& self.header.consistent()
        &&& match self.db {
            VaultDatabase::Encrypted(_) => self.header.spec_is_set(),
            VaultDatabase::Plain(db) => !self.header.spec_is_set() && db.well_formed(),
        }
    }

    /// Whether the header holds both slots and database parameters.
    pub open spec fn spec_is_encrypted(&self) -> bool {
        self.header.slots is Some && self.header.params is Some
    }

    /// Whether the header holds both slots and database parameters.
    #[verifier::when_used_as_spec(spec_is_encrypted)]
    pub fn is_encrypted(&self) -> (r: bool)
        ensures
            r == self.spec_is_encrypted(),
    {
        self.header.is_set()
    }
}

/// The entries of a database of the supported version.
pub open spec fn checked_entries(db: Database) -> Result<Vec<Entry>, VaultError> {
    if db.version != DATABASE_VERSION {
        Err(VaultError::UnsupportedVersion(db.version))
    } else {
        Ok(db.entries)
    }
}

/// What follows from a vault before any password is known.
pub open spec fn extracted(vault: Vault) -> Result<Action, VaultError> {
    if vault.version != VAULT_VERSION {
        Err(VaultError::UnsupportedVersion(vault.version))
    } else if vault.spec_is_encrypted() {
        Ok(Action::AskPassword(vault))
    } else {
        match vault.db {
            VaultDatabase::Plain(db) => match checked_entries(db) {
                Ok(entries) => Ok(Action::Finish(entries)),
                Err(e) => Err(e),
            },
            VaultDatabase::Encrypted(_) => Err(VaultError::FormatError),
        }
    }
}

/// Whether `r` is the step that follows `event`.
pub open spec fn follows(event: Event, r: Result<Action, VaultError>) -> bool {
    match event {
        Event::VaultRead(None) => r == Err::<Action, VaultError>(VaultError::FormatError),
        Event::VaultRead(Some(vault)) => r == extracted(vault),
        Event::PasswordGiven(vault, password) => if vault.version != VAULT_VERSION {
            r == Err::<Action, VaultError>(VaultError::UnsupportedVersion(vault.version))
        } else {
            match decrypted_text(encode_utf8(password@), vault) {
                Ok(text) => r matches Ok(Action::ReadDatabase(s)) && s@ == text,
                Err(e) => r == Err::<Action, VaultError>(e),
            }
        },
        Event::DatabaseRead(None) => r == Err::<Action, VaultError>(VaultError::EncodingError),
        Event::DatabaseRead(Some(db)) => match checked_entries(db) {
            Ok(entries) => r == Ok::<Action, VaultError>(Action::Finish(entries)),
            Err(e) => r == Err::<Action, VaultError>(e),
        },
    }
}

/// Checks the database version and hands out the entries.
pub fn check_database(db: Database) -> (r: Result<Vec<Entry>, VaultError>)
    ensures
        r == checked_entries(db),
{
    if db.version != DATABASE_VERSION {
        return Err(VaultError::UnsupportedVersion(db.version));
    }
    Ok(db.entries)
}

/// Checks the vault version, then either hands out the entries of a
/// plaintext vault or asks for the password of an encrypted one.
pub fn extract_database(vault: Vault) -> (r: Result<Action, VaultError>)
    ensures
        r == extracted(vault),
{
    if vault.version != VAULT_VERSION {
        return Err(VaultError::UnsupportedVersion(vault.version));
    }
    if vault.is_encrypted() {
        return Ok(Action::AskPassword(vault));
    }
    match vault.db {
        VaultDatabase::Plain(db) => match check_database(db) {
            Ok(entries) => Ok(Action::Finish(entries)),
            Err(e) => Err(e),
        },
        VaultDatabase::Encrypted(_) => Err(VaultError::FormatError),
    }
}

/// One step from a vault document towards its entries. The caller reads
/// JSON and obtains the password; every decision is taken here. The vault
/// version is checked at each step that holds a vault, so that nothing is
/// decrypted from a vault of an unsupported version.
pub fn parse_aegis_vault(event: Event) -> (r: Result<Action, VaultError>)
    ensures
        follows(event, r),
{
    match event {
        Event::VaultRead(None) => Err(VaultError::FormatError),
        Event::VaultRead(Some(vault)) => extract_database(vault),
        Event::PasswordGiven(vault, password) => {
            if vault.version != VAULT_VERSION {
                return Err(VaultError::UnsupportedVersion(vault.version));
            }
            match decrypt(password.as_str(), vault) {
                Ok(text) => Ok(Action::ReadDatabase(text)),
                Err(e) => Err(e),
            }
        },
        Event::DatabaseRead(None) => Err(VaultError::EncodingError),
        Event::DatabaseRead(Some(db)) => match check_database(db) {
            Ok(entries) => Ok(Action::Finish(entries)),
            Err(e) => Err(e),
        },
    }
}

} // verus!

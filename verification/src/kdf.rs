//! Password-based key derivation with scrypt.
use vstd::prelude::*;
use vstd::arithmetic::power2::{pow2, lemma2_to64, lemma_pow2_strictly_increases, lemma_pow2_unfold};
use scrypt::password_hash::PasswordHasher;
use crate::encoding::{bytes_of, hex_bytes, hex_decode, is_hex};
use crate::cipher::KEY_LEN;

verus! {

/// Fewest salt bytes that the key-derivation interface accepts.
pub const MIN_SALT_LEN: usize = 3;

/// Scrypt parameters and salt of one password slot.
#[derive(Debug, Clone, PartialEq, Eq)]
pub struct PasswordSlot {
    /// Linear work factor; a power of two.
    pub n: u32,
    /// Block size.
    pub r: u32,
    /// Parallelism.
    pub p: u32,
    /// Salt, as hexadecimal text.
    pub salt: String,
}

/// Why a key could not be derived.
#[derive(Debug, Clone, Copy, PartialEq, Eq)]
pub enum ParameterError {
    /// The salt is not hexadecimal text.
    SaltEncoding,
    /// The work factor is not a power of two.
    WorkFactor,
    /// Scrypt refuses the salt length or the cost parameters.
    Rejected,
}

/// The scrypt output of `len` bytes for a password, a salt, a cost exponent
/// and the block-size and parallelism parameters; `None` where the salt is
/// too long for the hashing interface or scrypt refuses the parameters.
pub uninterp spec fn scrypt_output(
    password: Seq<u8>,
    salt: Seq<u8>,
    log_n: u8,
    r: u32,
    p: u32,
    len: usize,
) -> Option<Seq<u8>>;

/// The exponent `k` with `n == 2^k`, if there is one.
pub open spec fn cost_exponent_of(n: u32) -> Option<u8> {
    if exists|k: nat| k < 32 && n as nat == pow2(k) {
        let k = choose|k: nat| k < 32 && n as nat == pow2(k);
        Some(k as u8)
    } else {
        None
    }
}

/// The salt bytes and cost exponent that a slot's parameters stand for.
pub open spec fn kdf_input_of(slot: PasswordSlot) -> Result<(Seq<u8>, u8), ParameterError> {
    if !is_hex(slot.salt@) {
        Err(ParameterError::SaltEncoding)
    } else {
        match cost_exponent_of(slot.n) {
            None => Err(ParameterError::WorkFactor),
            Some(log_n) => if hex_bytes(slot.salt@).len() < MIN_SALT_LEN {
                Err(ParameterError::Rejected)
            } else {
                Ok((hex_bytes(slot.salt@), log_n))
            },
        }
    }
}

/// The key that a password derives under a slot's parameters.
pub open spec fn derived_key(
    password: Seq<u8>,
    slot: PasswordSlot,
) -> Result<Seq<u8>, ParameterError> {
    match kdf_input_of(slot) {
        Err(e) => Err(e),
        Ok((salt, log_n)) => match scrypt_output(password, salt, log_n, slot.r, slot.p, KEY_LEN) {
            Some(key) => Ok(key),
            None => Err(ParameterError::Rejected),
        },
    }
}

/// Two equal powers of two have equal exponents.
pub proof fn lemma_pow2_injective(a: nat, b: nat)
    requires
        pow2(a) == pow2(b),
    ensures
        a == b,
{
    if a < b {
        lemma_pow2_strictly_increases(a, b);
    } else if b < a {
        lemma_pow2_strictly_increases(b, a);
    }
}

/// Converts a linear work factor to its base-2 logarithm. Succeeds exactly
/// on the powers of two.
pub fn cost_exponent(n: u32) -> (r: Option<u8>)
    ensures
        r == cost_exponent_of(n),
        r matches Some(k) ==> k < 32 && n as nat == pow2(k as nat),
        r is None ==> forall|k: nat| n as nat != pow2(k),
{
    let mut k: u8 = 0;
    let mut p: u64 = 1;
    proof {
        lemma2_to64();
    }
    while p < n as u64
        invariant
            k <= 32,
            p as nat == pow2(k as nat),
            p <= 0x1_0000_0000,
            forall|j: nat| j < k ==> pow2(j) < n as nat,
        decreases 0x2_0000_0000 - p,
    {
        proof {
            lemma2_to64();
            lemma_pow2_unfold((k + 1) as nat);
            if k >= 32 {
                lemma_pow2_strictly_increases(32, (k + 1) as nat);
            }
        }
        p = p * 2;
        k = k + 1;
    }
    if p == n as u64 {
        proof {
            lemma2_to64();
            let found = k as nat;
            assert(found < 32 && n as nat == pow2(found));
            let chosen = choose|c: nat| c < 32 && n as nat == pow2(c);
            lemma_pow2_injective(chosen, found);
        }
        Some(k)
    } else {
        proof {
            assert forall|j: nat| n as nat != pow2(j) by {
                if j > k {
                    lemma_pow2_strictly_increases(k as nat, j);
                }
            }
        }
        None
    }
}

/// Calls `SaltString::encode_b64`, `scrypt::Params::new` and
/// `Scrypt::hash_password_customized`, and copies the hash out. Trusted: the
/// outcome is a function of the arguments alone, and a key that comes out has
/// the length asked for. A salt of fewer than three bytes is left out because
/// the outside conversion of its encoding panics; a cost exponent of 32 or
/// more is left out because its fate depends on the machine's word size.
#[verifier::external_body]
pub(crate) fn scrypt_key(
    password: &[u8],
    salt: &[u8],
    log_n: u8,
    r: u32,
    p: u32,
    len: usize,
) -> (out: Option<Vec<u8>>)
    requires
        salt@.len() >= MIN_SALT_LEN,
        log_n < 32,
    ensures
        bytes_of(out) == scrypt_output(password@, salt@, log_n, r, p, len),
        out matches Some(key) ==> key@.len() == len,
{
    let salt = scrypt::password_hash::SaltString::encode_b64(salt).ok()?;
    let params = scrypt::Params::new(log_n, r, p, len).ok()?;
    let hashed = scrypt::Scrypt.hash_password_customized(password, None, None, params, &salt).ok()?;
    Some(hashed.hash?.as_bytes().to_vec())
}

/// Decodes the salt and converts the work factor of a slot: what scrypt is
/// then called with.
pub fn kdf_input(slot: &PasswordSlot) -> (r: Result<(Vec<u8>, u8), ParameterError>)
    ensures
        match kdf_input_of(*slot) {
            Ok((salt, log_n)) => r matches Ok(got) && got.0@ == salt && got.1 == log_n
                && salt.len() >= MIN_SALT_LEN && log_n < 32,
            Err(e) => r == Err::<(Vec<u8>, u8), ParameterError>(e),
        },
{
    let salt = match hex_decode(slot.salt.as_str()) {
        Some(salt) => salt,
        None => {
            return Err(ParameterError::SaltEncoding);
        },
    };
    let log_n = match cost_exponent(slot.n) {
        Some(log_n) => log_n,
        None => {
            return Err(ParameterError::WorkFactor);
        },
    };
    if salt.len() < MIN_SALT_LEN {
        return Err(ParameterError::Rejected);
    }
    Ok((salt, log_n))
}

/// Derives the 32-byte key of a password slot from a password.
pub fn derive_key(password: &[u8], slot: &PasswordSlot) -> (r: Result<Vec<u8>, ParameterError>)
    ensures
        match derived_key(password@, *slot) {
            Ok(key) => r matches Ok(k) && k@ == key && k@.len() == KEY_LEN,
            Err(e) => r == Err::<Vec<u8>, ParameterError>(e),
        },
{
    let (salt, log_n) = match kdf_input(slot) {
        Ok(input) => input,
        Err(e) => {
            return Err(e);
        },
    };
    match scrypt_key(password, salt.as_slice(), log_n, slot.r, slot.p, KEY_LEN) {
        Some(key) => Ok(key),
        None => Err(ParameterError::Rejected),
    }
}

} // verus!

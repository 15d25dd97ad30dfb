//! Password-based authenticated encryption of vault field values.
//!
//! A value is sealed under a key that Argon2id derives from the password
//! and a fresh random salt, with AES-256-GCM and a fresh random nonce. The
//! result travels as standard Base64 of
//! `version || salt (22 Base64 characters) || nonce (12 bytes) || ciphertext+tag`.
//! The cost parameters of the key derivation are fixed here and are not
//! stored in the blob.

use vstd::prelude::*;
use vstd::utf8::*;

use aes_gcm::aead::Aead;
use aes_gcm::aes::cipher::InvalidLength;
use aes_gcm::{Aes256Gcm, KeyInit, Nonce};
use argon2::password_hash::rand_core::OsRng;
use argon2::password_hash::{PasswordHasher, Salt, SaltString};
use argon2::{Algorithm, Argon2, Params, Version};
use base64::engine::general_purpose;
use base64::Engine;
use rand::Rng;
use zeroize::Zeroize;

verus! {

broadcast use group_utf8_lib;

/// Memory cost of the key derivation, in KiB.
pub const MEMORY_COST: u32 = 16384;

/// Iterations of the key derivation.
pub const TIME_COST: u32 = 3;

/// Lanes of the key derivation.
pub const PARALLELISM: u32 = 4;

/// Length of the derived key: an AES-256 key.
pub const KEY_LENGTH: usize = 32;

/// The one blob format that is understood.
pub const FORMAT_VERSION: u8 = 1;

/// Length of the salt as stored: 16 bytes in unpadded Base64.
pub const SALT_LENGTH: usize = 22;

/// Length of the AES-GCM nonce.
pub const NONCE_LENGTH: usize = 12;

/// The shortest blob: version, salt and nonce.
pub const HEADER_LENGTH: usize = 1 + SALT_LENGTH + NONCE_LENGTH;

/// Length of the AES-GCM authentication tag that follows the ciphertext.
pub const TAG_LENGTH: usize = 16;

/// The longest plaintext that AES-GCM accepts, in bytes.
pub const MAX_PLAINTEXT: u64 = 68719476736;

/// Failures of encryption and decryption. Wrong passwords and damaged
/// ciphertexts both surface as `DecryptionFailed`.
#[derive(Debug, Clone, Copy, PartialEq, Eq, Structural)]
pub enum EncryptionError {
    EncryptionFailed,
    DecryptionFailed,
    KeyDerivationFailed,
    UnsupportedVersion,
    Argon2ParametersBuilderFailed,
}

/// A short description of each failure.
pub open spec fn error_message(e: EncryptionError) -> Seq<char> {
    match e {
        EncryptionError::EncryptionFailed => "Encryption failed"@,
        EncryptionError::DecryptionFailed => "Decryption failed"@,
        EncryptionError::KeyDerivationFailed => "Key derivation failed"@,
        EncryptionError::UnsupportedVersion => "Unsupported version"@,
        EncryptionError::Argon2ParametersBuilderFailed => "Argon2 parameters builder failed"@,
    }
}

impl EncryptionError {
    /// A short description of the failure.
    pub fn message(&self) -> (r: &'static str)
        ensures
            r@ == error_message(*self),
    {
        match self {
            EncryptionError::EncryptionFailed => "Encryption failed",
            EncryptionError::DecryptionFailed => "Decryption failed",
            EncryptionError::KeyDerivationFailed => "Key derivation failed",
            EncryptionError::UnsupportedVersion => "Unsupported version",
            EncryptionError::Argon2ParametersBuilderFailed => "Argon2 parameters builder failed",
        }
    }
}

// ---------------------------------------------------------------------------
// Outside types and named results.

#[verifier::external_type_specification]
#[verifier::external_body]
pub struct ExArgon2Error(argon2::Error);

#[verifier::external_type_specification]
#[verifier::external_body]
pub struct ExPasswordHashError(argon2::password_hash::Error);

#[verifier::external_type_specification]
#[verifier::external_body]
pub struct ExAeadError(aes_gcm::Error);

#[verifier::external_type_specification]
#[verifier::external_body]
pub struct ExInvalidLength(InvalidLength);

#[verifier::external_type_specification]
#[verifier::external_body]
pub struct ExDecodeError(base64::DecodeError);

/// Standard Base64, with padding, of some bytes.
pub uninterp spec fn base64_encoding(bytes: Seq<u8>) -> Seq<char>;

/// The bytes that a text holds in standard Base64, if it is such a text.
pub uninterp spec fn base64_decoding(text: Seq<char>) -> Option<Seq<u8>>;

/// Argon2id (version 0x13) output for a password and a Base64 salt under
/// the given costs and output length, if the derivation succeeds.
pub uninterp spec fn argon2id_output(
    password: Seq<u8>,
    salt: Seq<char>,
    m_cost: u32,
    t_cost: u32,
    p_cost: u32,
    output_len: usize,
) -> Option<Seq<u8>>;

/// AES-256-GCM ciphertext followed by its tag, without associated data.
pub uninterp spec fn aes256gcm_sealed(key: Seq<u8>, nonce: Seq<u8>, plaintext: Seq<u8>) -> Seq<u8>;

/// AES-256-GCM plaintext of a ciphertext and tag, if the tag verifies.
pub uninterp spec fn aes256gcm_opened(key: Seq<u8>, nonce: Seq<u8>, sealed: Seq<u8>) -> Option<Seq<u8>>;

/// The cost parameters that Argon2 accepts.
pub open spec fn argon2_params_valid(m_cost: u32, t_cost: u32, p_cost: u32, output_len: usize) -> bool {
    &&& m_cost >= 8
    &&& m_cost >= 8 * p_cost
    &&& t_cost >= 1
    &&& 1 <= p_cost <= 0xFFFFFF
    &&& 4 <= output_len <= 0xFFFFFFFF
}

/// A character of standard Base64 without padding.
pub open spec fn is_base64_char(c: char) -> bool {
    ('A' <= c <= 'Z') || ('a' <= c <= 'z') || ('0' <= c <= '9') || c == '+' || c == '/'
}

/// A character that a salt string may hold.
pub open spec fn is_salt_char(c: char) -> bool {
    is_base64_char(c) || c == '.' || c == '-'
}

/// A salt string that Argon2's password hashing accepts.
pub open spec fn salt_text_valid(s: Seq<char>) -> bool {
    &&& 4 <= s.len() <= 64
    &&& forall|i: int| 0 <= i < s.len() ==> #[trigger] is_salt_char(s[i])
}

/// Relies on password_hash's `SaltString::generate` with the operating
/// system's generator: sixteen random bytes in unpadded standard Base64.
#[verifier::external_body]
fn generate_salt() -> (r: String)
    ensures
        r@.len() == SALT_LENGTH,
        forall|i: int| 0 <= i < r@.len() ==> #[trigger] is_base64_char(r@[i]),
{
    SaltString::generate(&mut OsRng).as_str().to_owned()
}

/// Relies on password_hash's `SaltString::from_b64`: it accepts between 4
/// and 64 bytes of `[A-Za-z0-9+/.-]`.
#[verifier::external_body]
fn check_salt(s: &str) -> (r: Result<(), argon2::password_hash::Error>)
    ensures
        r is Ok <==> salt_text_valid(s@),
{
    SaltString::from_b64(s).map(|_| ())
}

/// Relies on argon2's `Params::new`, which checks the cost parameters.
#[verifier::external_body]
fn check_argon2_params(m_cost: u32, t_cost: u32, p_cost: u32, output_len: usize) -> (r: Result<(), argon2::Error>)
    requires
        p_cost <= 0xFFFFFF,
    ensures
        r is Ok <==> argon2_params_valid(m_cost, t_cost, p_cost, output_len),
{
    Params::new(m_cost, t_cost, p_cost, Some(output_len)).map(|_| ())
}

/// Relies on argon2's `PasswordHasher::hash_password` for Argon2id version
/// 0x13 under `Params::new(m_cost, t_cost, p_cost, Some(output_len))`: the
/// output depends on its arguments alone and has `output_len` bytes.
#[verifier::external_body]
fn argon2id_hash(
    password: &[u8],
    salt: &str,
    m_cost: u32,
    t_cost: u32,
    p_cost: u32,
    output_len: usize,
) -> (r: Result<Option<Vec<u8>>, argon2::password_hash::Error>)
    requires
        p_cost <= 0xFFFFFF,
    ensures
        (r matches Ok(Some(_))) <==> argon2id_output(password@, salt@, m_cost, t_cost, p_cost, output_len) is Some,
        r matches Ok(Some(k)) ==> k@ == argon2id_output(password@, salt@, m_cost, t_cost, p_cost, output_len)->Some_0
            && k@.len() == output_len,
{
    let params = Params::new(m_cost, t_cost, p_cost, Some(output_len))?;
    let context = Argon2::new(Algorithm::Argon2id, Version::V0x13, params);
    let hash = context.hash_password(password, Salt::from_b64(salt)?)?;
    Ok(hash.hash.map(|out| out.as_bytes().to_vec()))
}

/// Relies on rand's `thread_rng` for twelve random bytes.
#[verifier::external_body]
fn random_nonce() -> (r: Vec<u8>)
    ensures
        r@.len() == NONCE_LENGTH,
{
    rand::thread_rng().gen::<[u8; 12]>().to_vec()
}

/// Relies on aes-gcm's `KeyInit::new_from_slice` for `Aes256Gcm`, which
/// takes 32-byte keys, and `Aead::encrypt`, which takes plaintexts of at
/// most 2^36 bytes and returns the ciphertext, as long as the plaintext,
/// followed by a 16-byte tag; decrypting the result gives the plaintext
/// back.
#[verifier::external_body]
fn aes256gcm_seal(key: &[u8], nonce: &[u8], plaintext: &[u8]) -> (r: Result<Result<Vec<u8>, aes_gcm::Error>, InvalidLength>)
    requires
        nonce@.len() == NONCE_LENGTH,
    ensures
        r is Ok <==> key@.len() == KEY_LENGTH,
        r matches Ok(inner) ==> (inner is Ok <==> plaintext@.len() <= MAX_PLAINTEXT),
        r matches Ok(Ok(c)) ==> c@ == aes256gcm_sealed(key@, nonce@, plaintext@)
            && c@.len() == plaintext@.len() + TAG_LENGTH
            && aes256gcm_opened(key@, nonce@, c@) == Some(plaintext@),
{
    Aes256Gcm::new_from_slice(key).map(|cipher| cipher.encrypt(Nonce::from_slice(nonce), plaintext))
}

/// Relies on aes-gcm's `KeyInit::new_from_slice` for `Aes256Gcm`, which
/// takes 32-byte keys, and `Aead::decrypt`, which fails when the tag does
/// not verify.
#[verifier::external_body]
fn aes256gcm_open(key: &[u8], nonce: &[u8], sealed: &[u8]) -> (r: Result<Result<Vec<u8>, aes_gcm::Error>, InvalidLength>)
    requires
        nonce@.len() == NONCE_LENGTH,
    ensures
        r is Ok <==> key@.len() == KEY_LENGTH,
        r matches Ok(inner) ==> (inner is Ok <==> aes256gcm_opened(key@, nonce@, sealed@) is Some),
        r matches Ok(Ok(p)) ==> aes256gcm_opened(key@, nonce@, sealed@) == Some(p@),
{
    Aes256Gcm::new_from_slice(key).map(|cipher| cipher.decrypt(Nonce::from_slice(nonce), sealed))
}

/// Relies on base64's standard engine `encode`; its `decode` gives the
/// bytes back.
#[verifier::external_body]
fn base64_encode(bytes: &[u8]) -> (r: String)
    ensures
        r@ == base64_encoding(bytes@),
        base64_decoding(r@) == Some(bytes@),
{
    general_purpose::STANDARD.encode(bytes)
}

/// Relies on base64's standard engine `decode`.
#[verifier::external_body]
fn base64_decode(text: &str) -> (r: Result<Vec<u8>, base64::DecodeError>)
    ensures
        r is Ok <==> base64_decoding(text@) is Some,
        r matches Ok(b) ==> base64_decoding(text@) == Some(b@),
{
    general_purpose::STANDARD.decode(text)
}

/// Relies on `String::from_utf8`: it accepts exactly the valid UTF-8 byte
/// sequences.
#[verifier::external_body]
fn utf8_text(bytes: Vec<u8>) -> (r: Option<String>)
    ensures
        r is Some <==> valid_utf8(bytes@),
        r matches Some(s) ==> s@ == decode_utf8(bytes@),
{
    String::from_utf8(bytes).ok()
}

/// Relies on zeroize's `Zeroize` for `Vec<u8>`: the bytes are overwritten
/// with zeros and the vector is cleared.
#[verifier::external_body]
fn wipe(bytes: &mut Vec<u8>)
    ensures
        final(bytes)@.len() == 0,
{
    bytes.zeroize();
}

// ---------------------------------------------------------------------------
// The blob format.

/// The pieces of a decoded blob.
pub struct BlobParts {
    pub salt: String,
    pub nonce: Vec<u8>,
    pub ciphertext: Vec<u8>,
}

/// The salt bytes of a blob that is at least a header long.
pub open spec fn blob_salt(blob: Seq<u8>) -> Seq<u8> {
    blob.subrange(1, 1 + SALT_LENGTH)
}

pub open spec fn blob_nonce(blob: Seq<u8>) -> Seq<u8> {
    blob.subrange(1 + SALT_LENGTH, HEADER_LENGTH as int)
}

pub open spec fn blob_ciphertext(blob: Seq<u8>) -> Seq<u8> {
    blob.subrange(HEADER_LENGTH as int, blob.len() as int)
}

/// How a decoded blob splits into salt text, nonce and ciphertext, or why
/// it does not.
pub open spec fn parse_outcome(blob: Seq<u8>) -> Result<(Seq<char>, Seq<u8>, Seq<u8>), EncryptionError> {
    if blob.len() < HEADER_LENGTH {
        Err(EncryptionError::DecryptionFailed)
    } else if blob[0] != FORMAT_VERSION {
        Err(EncryptionError::UnsupportedVersion)
    } else if !valid_utf8(blob_salt(blob)) || !salt_text_valid(decode_utf8(blob_salt(blob))) {
        Err(EncryptionError::DecryptionFailed)
    } else {
        Ok((decode_utf8(blob_salt(blob)), blob_nonce(blob), blob_ciphertext(blob)))
    }
}

/// The bytes of a blob: version, salt text, nonce, sealed plaintext.
pub open spec fn blob_bytes(salt: Seq<char>, nonce: Seq<u8>, sealed: Seq<u8>) -> Seq<u8> {
    seq![FORMAT_VERSION] + encode_utf8(salt) + nonce + sealed
}

/// The key that the fixed parameters derive from a password and a salt.
pub open spec fn derived_key(password: Seq<char>, salt: Seq<char>) -> Option<Seq<u8>> {
    argon2id_output(encode_utf8(password), salt, MEMORY_COST, TIME_COST, PARALLELISM, KEY_LENGTH)
}

/// What decrypting the pieces of a blob yields.
pub open spec fn open_outcome(
    salt: Seq<char>,
    nonce: Seq<u8>,
    ciphertext: Seq<u8>,
    password: Seq<char>,
) -> Result<Seq<char>, EncryptionError> {
    if !argon2_params_valid(MEMORY_COST, TIME_COST, PARALLELISM, KEY_LENGTH) {
        Err(EncryptionError::Argon2ParametersBuilderFailed)
    } else {
        match derived_key(password, salt) {
            None => Err(EncryptionError::DecryptionFailed),
            Some(key) => if key.len() != KEY_LENGTH {
                Err(EncryptionError::DecryptionFailed)
            } else {
                match aes256gcm_opened(key, nonce, ciphertext) {
                    None => Err(EncryptionError::DecryptionFailed),
                    Some(plain) => if valid_utf8(plain) {
                        Ok(decode_utf8(plain))
                    } else {
                        Err(EncryptionError::DecryptionFailed)
                    },
                }
            },
        }
    }
}

/// What decrypting a decoded blob with a password yields.
pub open spec fn unseal_outcome(blob: Seq<u8>, password: Seq<char>) -> Result<Seq<char>, EncryptionError> {
    match parse_outcome(blob) {
        Err(e) => Err(e),
        Ok((salt, nonce, ciphertext)) => open_outcome(salt, nonce, ciphertext, password),
    }
}

/// What decrypting an encoded secret with a password yields.
pub open spec fn decrypt_outcome(encoded: Seq<char>, password: Seq<char>) -> Result<Seq<char>, EncryptionError> {
    match base64_decoding(encoded) {
        None => Err(EncryptionError::DecryptionFailed),
        Some(blob) => unseal_outcome(blob, password),
    }
}

/// A decryption result with its text as a character sequence.
pub open spec fn text_result(r: Result<String, EncryptionError>) -> Result<Seq<char>, EncryptionError> {
    match r {
        Ok(s) => Ok(s@),
        Err(e) => Err(e),
    }
}

/// `encoded` seals `data` under `password`, with this salt, nonce and
/// derived key, and decoding it gives the blob back.
pub open spec fn is_sealing(
    encoded: Seq<char>,
    data: Seq<char>,
    password: Seq<char>,
    salt: Seq<char>,
    nonce: Seq<u8>,
    key: Seq<u8>,
) -> bool {
    let sealed = aes256gcm_sealed(key, nonce, encode_utf8(data));
    let blob = blob_bytes(salt, nonce, sealed);
    &&& is_generated_salt(salt)
    &&& nonce.len() == NONCE_LENGTH
    &&& derived_key(password, salt) == Some(key)
    &&& key.len() == KEY_LENGTH
    &&& sealed.len() == encode_utf8(data).len() + TAG_LENGTH
    &&& aes256gcm_opened(key, nonce, sealed) == Some(encode_utf8(data))
    &&& encoded == base64_encoding(blob)
    &&& base64_decoding(encoded) == Some(blob)
}

/// A salt as drawn for encryption: 22 characters of unpadded standard
/// Base64.
pub open spec fn is_generated_salt(salt: Seq<char>) -> bool {
    &&& salt.len() == SALT_LENGTH
    &&& forall|i: int| 0 <= i < salt.len() ==> #[trigger] is_base64_char(salt[i])
}

/// Key derivation from `password` fails for some salt that encryption may
/// draw.
pub open spec fn derivation_can_fail(password: Seq<char>) -> bool {
    exists|salt: Seq<char>| is_generated_salt(salt) && derived_key(password, salt) is None
}

/// `encoded` seals `data` under `password` with some salt, nonce and key.
pub open spec fn seals(encoded: Seq<char>, data: Seq<char>, password: Seq<char>) -> bool {
    exists|salt: Seq<char>, nonce: Seq<u8>, key: Seq<u8>|
        is_sealing(encoded, data, password, salt, nonce, key)
}

/// Copies `b[from..to]`.
fn copy_range(b: &[u8], from: usize, to: usize) -> (r: Vec<u8>)
    requires
        from <= to <= b@.len(),
    ensures
        r@ == b@.subrange(from as int, to as int),
{
    let mut out: Vec<u8> = Vec::new();
    let mut i: usize = from;
    while i < to
        invariant
            from <= i <= to,
            to <= b@.len(),
            out@ == b@.subrange(from as int, i as int),
        decreases to - i,
    {
        out.push(b[i]);
        proof {
            assert(out@ =~= b@.subrange(from as int, i + 1));
        }
        i = i + 1;
    }
    out
}

/// Splits a decoded blob into salt, nonce and ciphertext, checking its
/// length, its version and its salt.
pub fn parse_blob(blob: &[u8]) -> (r: Result<BlobParts, EncryptionError>)
    ensures
        r matches Err(e) ==> parse_outcome(blob@) == Err::<(Seq<char>, Seq<u8>, Seq<u8>), _>(e),
        r matches Ok(p) ==> parse_outcome(blob@) == Ok::<_, EncryptionError>((p.salt@, p.nonce@, p.ciphertext@)),
{
    if blob.len() < HEADER_LENGTH {
        return Err(EncryptionError::DecryptionFailed);
    }
    if blob[0] != FORMAT_VERSION {
        return Err(EncryptionError::UnsupportedVersion);
    }
    let salt_bytes = copy_range(blob, 1, 1 + SALT_LENGTH);
    let salt = match utf8_text(salt_bytes) {
        Some(s) => s,
        None => {
            return Err(EncryptionError::DecryptionFailed);
        },
    };
    match check_salt(salt.as_str()) {
        Ok(()) => {},
        Err(_) => {
            return Err(EncryptionError::DecryptionFailed);
        },
    }
    let nonce = copy_range(blob, 1 + SALT_LENGTH, HEADER_LENGTH);
    let ciphertext = copy_range(blob, HEADER_LENGTH, blob.len());
    Ok(BlobParts { salt, nonce, ciphertext })
}

/// Lays out a blob: version, salt text, nonce, sealed plaintext.
pub fn assemble_blob(salt: &str, nonce: &[u8], sealed: &[u8]) -> (r: Vec<u8>)
    ensures
        r@ == blob_bytes(salt@, nonce@, sealed@),
{
    let mut out: Vec<u8> = Vec::new();
    out.push(FORMAT_VERSION);
    let salt_bytes = salt.as_bytes();
    let ghost start = out@;
    let mut i: usize = 0;
    while i < salt_bytes.len()
        invariant
            i <= salt_bytes@.len(),
            salt_bytes@ == encode_utf8(salt@),
            out@ == seq![FORMAT_VERSION] + salt_bytes@.take(i as int),
        decreases salt_bytes.len() - i,
    {
        out.push(salt_bytes[i]);
        proof {
            assert(salt_bytes@.take(i + 1) =~= salt_bytes@.take(i as int).push(salt_bytes@[i as int]));
        }
        i = i + 1;
    }
    let mut j: usize = 0;
    while j < nonce.len()
        invariant
            j <= nonce@.len(),
            salt_bytes@ == encode_utf8(salt@),
            out@ == seq![FORMAT_VERSION] + encode_utf8(salt@) + nonce@.take(j as int),
        decreases nonce.len() - j,
    {
        proof {
            assert(salt_bytes@.take(salt_bytes@.len() as int) =~= salt_bytes@);
        }
        out.push(nonce[j]);
        proof {
            assert(nonce@.take(j + 1) =~= nonce@.take(j as int).push(nonce@[j as int]));
        }
        j = j + 1;
    }
    let mut k: usize = 0;
    while k < sealed.len()
        invariant
            k <= sealed@.len(),
            out@ == seq![FORMAT_VERSION] + encode_utf8(salt@) + nonce@ + sealed@.take(k as int),
        decreases sealed.len() - k,
    {
        proof {
            assert(nonce@.take(nonce@.len() as int) =~= nonce@);
        }
        out.push(sealed[k]);
        proof {
            assert(sealed@.take(k + 1) =~= sealed@.take(k as int).push(sealed@[k as int]));
        }
        k = k + 1;
    }
    proof {
        assert(sealed@.take(sealed@.len() as int) =~= sealed@);
        assert(out@ =~= blob_bytes(salt@, nonce@, sealed@));
    }
    out
}

// ---------------------------------------------------------------------------
// Encryption and decryption.

/// Derives the key for a password and a salt with the fixed parameters.
fn derive_key(password: &str, salt: &str) -> (r: Result<Vec<u8>, EncryptionError>)
    ensures
        !argon2_params_valid(MEMORY_COST, TIME_COST, PARALLELISM, KEY_LENGTH) ==> r == Err::<
            Vec<u8>,
            _,
        >(EncryptionError::Argon2ParametersBuilderFailed),
        argon2_params_valid(MEMORY_COST, TIME_COST, PARALLELISM, KEY_LENGTH) ==> {
            &&& r is Ok <==> derived_key(password@, salt@) is Some
            &&& r matches Err(e) ==> e == EncryptionError::KeyDerivationFailed
            &&& r matches Ok(k) ==> derived_key(password@, salt@) == Some(k@) && k@.len()
                == KEY_LENGTH
        },
{
    match check_argon2_params(MEMORY_COST, TIME_COST, PARALLELISM, KEY_LENGTH) {
        Ok(()) => {},
        Err(_) => {
            return Err(EncryptionError::Argon2ParametersBuilderFailed);
        },
    }
    match argon2id_hash(password.as_bytes(), salt, MEMORY_COST, TIME_COST, PARALLELISM, KEY_LENGTH) {
        Ok(Some(key)) => Ok(key),
        _ => Err(EncryptionError::KeyDerivationFailed),
    }
}

/// Encrypts `data` under `password` and returns the encoded secret.
///
/// A fresh salt and nonce are drawn on every call. On success the result
/// seals `data` and decrypts back to it under the same password; whatever
/// password is tried on it, decryption fails only with `DecryptionFailed`
/// (see `lemma_round_trip` and `lemma_sealed_failure_kind`). Encryption
/// fails with `KeyDerivationFailed` only when Argon2id yields no key for
/// the password and the drawn salt, and with `EncryptionFailed` only when
/// `data` is longer than AES-GCM accepts.
pub fn encrypt(data: &str, password: &str) -> (r: Result<String, EncryptionError>)
    ensures
        r matches Ok(e) ==> seals(e@, data@, password@),
        r matches Err(e) ==> (e == EncryptionError::KeyDerivationFailed && derivation_can_fail(
            password@,
        )) || (e == EncryptionError::EncryptionFailed && encode_utf8(data@).len() > MAX_PLAINTEXT),
{
    let salt = generate_salt();
    let mut key = match derive_key(password, salt.as_str()) {
        Ok(k) => k,
        Err(e) => {
            proof {
                assert(is_generated_salt(salt@));
            }
            return Err(e);
        },
    };
    let nonce = random_nonce();
    let plaintext = data.as_bytes();
    let sealed = match aes256gcm_seal(key.as_slice(), nonce.as_slice(), plaintext) {
        Ok(Ok(c)) => c,
        _ => {
            wipe(&mut key);
            return Err(EncryptionError::EncryptionFailed);
        },
    };
    let ghost key_bytes = key@;
    wipe(&mut key);
    let blob = assemble_blob(salt.as_str(), nonce.as_slice(), sealed.as_slice());
    let encoded = base64_encode(blob.as_slice());
    proof {
        assert(is_sealing(encoded@, data@, password@, salt@, nonce@, key_bytes));
        assert(seals(encoded@, data@, password@));
    }
    Ok(encoded)
}

/// Decrypts a decoded blob with `password`.
pub fn decrypt_blob(blob: &[u8], password: &str) -> (r: Result<String, EncryptionError>)
    ensures
        text_result(r) == unseal_outcome(blob@, password@),
{
    let parts = match parse_blob(blob) {
        Ok(p) => p,
        Err(e) => {
            return Err(e);
        },
    };
    let mut key = match derive_key(password, parts.salt.as_str()) {
        Ok(k) => k,
        Err(EncryptionError::Argon2ParametersBuilderFailed) => {
            return Err(EncryptionError::Argon2ParametersBuilderFailed);
        },
        Err(_) => {
            return Err(EncryptionError::DecryptionFailed);
        },
    };
    let opened = aes256gcm_open(key.as_slice(), parts.nonce.as_slice(), parts.ciphertext.as_slice());
    wipe(&mut key);
    let plain = match opened {
        Ok(Ok(p)) => p,
        _ => {
            return Err(EncryptionError::DecryptionFailed);
        },
    };
    match utf8_text(plain) {
        Some(text) => Ok(text),
        None => Err(EncryptionError::DecryptionFailed),
    }
}

/// Decrypts an encoded secret with `password`.
///
/// A wrong password and a damaged secret give the same error,
/// `DecryptionFailed`; a blob of another format version gives
/// `UnsupportedVersion`.
pub fn decrypt(encrypted_data: &str, password: &str) -> (r: Result<String, EncryptionError>)
    ensures
        text_result(r) == decrypt_outcome(encrypted_data@, password@),
{
    let decoded = match base64_decode(encrypted_data) {
        Ok(d) => d,
        Err(_) => {
            return Err(EncryptionError::DecryptionFailed);
        },
    };
    decrypt_blob(decoded.as_slice(), password)
}

// ---------------------------------------------------------------------------
// Laws.

proof fn lemma_salt_round_trip(salt: Seq<char>)
    requires
        salt.len() == SALT_LENGTH,
        forall|i: int| 0 <= i < salt.len() ==> #[trigger] is_base64_char(salt[i]),
    ensures
        encode_utf8(salt).len() == SALT_LENGTH,
        valid_utf8(encode_utf8(salt)),
        decode_utf8(encode_utf8(salt)) == salt,
        salt_text_valid(salt),
{
    assert(is_ascii_chars(salt)) by {
        assert forall|i: int| 0 <= i < salt.len() implies '\0' <= #[trigger] salt[i] <= '\u{7f}' by {
            assert(is_base64_char(salt[i]));
        }
    }
    is_ascii_chars_encode_utf8(salt);
    assert forall|i: int| 0 <= i < salt.len() implies #[trigger] is_salt_char(salt[i]) by {
        assert(is_base64_char(salt[i]));
    }
}

proof fn lemma_sealed_blob_parses(salt: Seq<char>, nonce: Seq<u8>, sealed: Seq<u8>)
    requires
        salt.len() == SALT_LENGTH,
        forall|i: int| 0 <= i < salt.len() ==> #[trigger] is_base64_char(salt[i]),
        nonce.len() == NONCE_LENGTH,
    ensures
        parse_outcome(blob_bytes(salt, nonce, sealed)) == Ok::<_, EncryptionError>((salt, nonce, sealed)),
{
    lemma_salt_round_trip(salt);
    let blob = blob_bytes(salt, nonce, sealed);
    assert(blob_salt(blob) =~= encode_utf8(salt));
    assert(blob_nonce(blob) =~= nonce);
    assert(blob_ciphertext(blob) =~= sealed);
}

/// Round trip: a secret that `encrypt` made from `data` under `password`
/// decrypts to `data` under the same password.
pub proof fn lemma_round_trip(encoded: Seq<char>, data: Seq<char>, password: Seq<char>)
    requires
        seals(encoded, data, password),
    ensures
        decrypt_outcome(encoded, password) == Ok::<_, EncryptionError>(data),
{
    let (salt, nonce, key) = choose|salt: Seq<char>, nonce: Seq<u8>, key: Seq<u8>|
        is_sealing(encoded, data, password, salt, nonce, key);
    lemma_sealed_blob_parses(salt, nonce, aes256gcm_sealed(key, nonce, encode_utf8(data)));
}

/// A secret that `encrypt` made is never refused for its layout, version or
/// salt: under any password, decryption either succeeds or fails with
/// `DecryptionFailed`, the one error of wrong passwords and damaged data.
pub proof fn lemma_sealed_failure_kind(
    encoded: Seq<char>,
    data: Seq<char>,
    password: Seq<char>,
    other: Seq<char>,
)
    requires
        seals(encoded, data, password),
    ensures
        decrypt_outcome(encoded, other) matches Err(e) ==> e == EncryptionError::DecryptionFailed,
{
    let (salt, nonce, key) = choose|salt: Seq<char>, nonce: Seq<u8>, key: Seq<u8>|
        is_sealing(encoded, data, password, salt, nonce, key);
    lemma_sealed_blob_parses(salt, nonce, aes256gcm_sealed(key, nonce, encode_utf8(data)));
}

/// A blob at least a header long whose version byte is not the supported
/// one is refused with `UnsupportedVersion`, whatever else it holds.
pub proof fn lemma_version_rejected(encoded: Seq<char>, blob: Seq<u8>, password: Seq<char>)
    requires
        base64_decoding(encoded) == Some(blob),
        blob.len() >= HEADER_LENGTH,
        blob[0] != FORMAT_VERSION,
    ensures
        unseal_outcome(blob, password) == Err::<Seq<char>, _>(EncryptionError::UnsupportedVersion),
        decrypt_outcome(encoded, password) == Err::<Seq<char>, _>(EncryptionError::UnsupportedVersion),
{
}

} // verus!

//! Protection by a key that the host's own identity yields: AES-256-GCM under a PBKDF2 key.

use aes_gcm::aead::{Aead, KeyInit};
use aes_gcm::{Aes256Gcm, Key, Nonce};
use pbkdf2::pbkdf2_hmac;
use sha2::Sha256;
use vstd::prelude::*;
use vstd::slice::slice_subrange;
use vstd::utf8::encode_utf8;
use crate::error::{bytes_outcome, ErrorView, SecureFileError};

verus! {

/// How many rounds of PBKDF2 make a key.
pub const PBKDF2_ITERATIONS: u32 = 600_000;

/// The length of the salt at the head of a payload.
pub const SALT_LEN: usize = 16;

/// Where the salt and the nonce of a payload end and the ciphertext begins.
pub const HEADER_LEN: usize = 28;

/// The longest text that AES-GCM encrypts.
pub const PLAINTEXT_MAX: u64 = 68_719_476_736;

/// What the host tells of itself: its machine id, its name, and the user's name, each where it
/// could be had.
#[derive(Debug)]
pub struct HostIdentity {
    pub machine_id: Option<Vec<u8>>,
    pub hostname: Option<String>,
    pub username: Option<String>,
}

/// A [`HostIdentity`] with its parts as sequences.
pub struct HostView {
    pub machine_id: Option<Seq<u8>>,
    pub hostname: Option<Seq<char>>,
    pub username: Option<Seq<char>>,
}

impl View for HostIdentity {
    type V = HostView;

    open spec fn view(&self) -> HostView {
        HostView {
            machine_id: match self.machine_id {
                Some(id) => Some(id@),
                None => None,
            },
            hostname: match self.hostname {
                Some(name) => Some(name@),
                None => None,
            },
            username: match self.username {
                Some(name) => Some(name@),
                None => None,
            },
        }
    }
}

/// The bytes of a text, none where there is no text.
pub open spec fn bytes_of(text: Option<Seq<char>>) -> Seq<u8> {
    match text {
        Some(text) => encode_utf8(text),
        None => seq![],
    }
}

/// All that the host tells of itself, in one sequence of bytes.
pub open spec fn machine_secret(host: HostView) -> Seq<u8> {
    (match host.machine_id {
        Some(id) => id,
        None => seq![],
    }) + bytes_of(host.hostname) + bytes_of(host.username)
}

/// The first 32 bytes that PBKDF2 with HMAC-SHA-256 derives.
pub uninterp spec fn pbkdf2_sha256_key(password: Seq<u8>, salt: Seq<u8>, rounds: u32) -> Seq<u8>;

/// The ciphertext and tag that AES-256-GCM makes, without associated data.
pub uninterp spec fn aes256gcm_ciphertext(
    key: Seq<u8>,
    nonce: Seq<u8>,
    plain: Seq<u8>,
) -> Seq<u8>;

/// What AES-256-GCM takes out of ciphertext and tag; `None` where the tag does not fit.
pub uninterp spec fn aes256gcm_plaintext(
    key: Seq<u8>,
    nonce: Seq<u8>,
    ciphertext: Seq<u8>,
) -> Option<Seq<u8>>;

/// The key that a host derives from a salt.
pub open spec fn software_key(host: HostView, salt: Seq<u8>) -> Seq<u8> {
    pbkdf2_sha256_key(machine_secret(host), salt, PBKDF2_ITERATIONS)
}

/// A payload: salt, nonce and ciphertext, in this order.
pub open spec fn assembled(salt: Seq<u8>, nonce: Seq<u8>, ciphertext: Seq<u8>) -> Seq<u8> {
    salt + nonce + ciphertext
}

/// The salt of a payload.
pub open spec fn salt_of(payload: Seq<u8>) -> Seq<u8> {
    payload.take(SALT_LEN as int)
}

/// The nonce of a payload.
pub open spec fn nonce_of(payload: Seq<u8>) -> Seq<u8> {
    payload.subrange(SALT_LEN as int, HEADER_LEN as int)
}

/// The ciphertext of a payload.
pub open spec fn ciphertext_of(payload: Seq<u8>) -> Seq<u8> {
    payload.skip(HEADER_LEN as int)
}

/// What sealing `plain` gives, for a salt and a nonce.
pub open spec fn sealing(host: HostView, salt: Seq<u8>, nonce: Seq<u8>, plain: Seq<u8>) -> Result<
    Seq<u8>,
    ErrorView,
> {
    if machine_secret(host).len() == 0 {
        Err(ErrorView::NoHostIdentity)
    } else if plain.len() > PLAINTEXT_MAX {
        Err(ErrorView::EncryptFailed("aead::Error"@))
    } else {
        Ok(
            assembled(
                salt,
                nonce,
                aes256gcm_ciphertext(software_key(host, salt), nonce, plain),
            ),
        )
    }
}

/// What taking a payload apart gives back.
pub open spec fn unsealing(host: HostView, payload: Seq<u8>) -> Result<Seq<u8>, ErrorView> {
    if payload.len() < HEADER_LEN {
        Err(ErrorView::PayloadTooShort)
    } else if machine_secret(host).len() == 0 {
        Err(ErrorView::NoHostIdentity)
    } else {
        match aes256gcm_plaintext(
            software_key(host, salt_of(payload)),
            nonce_of(payload),
            ciphertext_of(payload),
        ) {
            Some(plain) => Ok(plain),
            None => Err(ErrorView::DecryptFailed("aead::Error"@)),
        }
    }
}

/// Calls `rand::random` for an array of bytes. Nothing is known of the bytes. The call panics where
/// the system has no source of randomness.
#[verifier::external_body]
fn random_bytes<const N: usize>() -> (bytes: [u8; N]) {
    rand::random()
}

/// Calls `pbkdf2::pbkdf2_hmac` with SHA-256 for 32 bytes of key: a function of password, salt and
/// number of rounds alone.
#[verifier::external_body]
fn derive_pbkdf2(password: &[u8], salt: &[u8], rounds: u32) -> (key: [u8; 32])
    ensures
        key@ == pbkdf2_sha256_key(password@, salt@, rounds),
{
    let mut key = [0u8; 32];
    pbkdf2_hmac::<Sha256>(password, salt, rounds, &mut key);
    key
}

/// Calls `encrypt` of aes-gcm's `Aes256Gcm`, without associated data. It fails, with an error that
/// says no more than its name, on a text longer than AES-GCM allows and on no other; what it makes
/// is a function of key, nonce and text, holds a tag of 16 bytes beside the text, and decrypts
/// under the same key and nonce to the text. A nonce of any length but 12 makes the call panic, and
/// so does a result that memory cannot hold.
#[verifier::external_body]
fn encrypt_aes256gcm(key: &[u8; 32], nonce: &[u8], plain: &[u8]) -> (result: Result<
    Vec<u8>,
    String,
>)
    requires
        nonce@.len() == 12,
        plain@.len() + 16 <= isize::MAX,
    ensures
        match result {
            Ok(ciphertext) => {
                &&& plain@.len() <= PLAINTEXT_MAX
                &&& ciphertext@ == aes256gcm_ciphertext(key@, nonce@, plain@)
                &&& ciphertext@.len() == plain@.len() + 16
                &&& aes256gcm_plaintext(key@, nonce@, ciphertext@) == Some(plain@)
            },
            Err(error) => plain@.len() > PLAINTEXT_MAX && error@ == "aead::Error"@,
        },
{
    Aes256Gcm::new(Key::<Aes256Gcm>::from_slice(key))
        .encrypt(Nonce::from_slice(nonce), plain)
        .map_err(|e| e.to_string())
}

/// Calls `decrypt` of aes-gcm's `Aes256Gcm`, without associated data. What it gives is a function
/// of key, nonce and ciphertext, and 16 bytes shorter than the ciphertext; its one error says no
/// more than its name. A nonce of any length but 12 makes the call panic.
#[verifier::external_body]
fn decrypt_aes256gcm(key: &[u8; 32], nonce: &[u8], ciphertext: &[u8]) -> (result: Result<
    Vec<u8>,
    String,
>)
    requires
        nonce@.len() == 12,
    ensures
        match result {
            Ok(plain) => {
                &&& aes256gcm_plaintext(key@, nonce@, ciphertext@) == Some(plain@)
                &&& plain@.len() + 16 == ciphertext@.len()
            },
            Err(error) => {
                &&& aes256gcm_plaintext(key@, nonce@, ciphertext@) is None
                &&& error@ == "aead::Error"@
            },
        },
{
    Aes256Gcm::new(Key::<Aes256Gcm>::from_slice(key))
        .decrypt(Nonce::from_slice(nonce), ciphertext)
        .map_err(|e| e.to_string())
}

/// All that the host tells of itself, in one sequence of bytes. A host that tells nothing is an
/// error.
pub fn machine_secret_material(host: &HostIdentity) -> (result: Result<Vec<u8>, SecureFileError>)
    ensures
        bytes_outcome(result) == (if machine_secret(host@).len() == 0 {
            Err(ErrorView::NoHostIdentity)
        } else {
            Ok(machine_secret(host@))
        }),
{
    let mut secret: Vec<u8> = Vec::new();
    if let Some(id) = &host.machine_id {
        secret.extend_from_slice(id.as_slice());
    }
    if let Some(name) = &host.hostname {
        secret.extend_from_slice(name.as_str().as_bytes());
    }
    if let Some(name) = &host.username {
        secret.extend_from_slice(name.as_str().as_bytes());
    }
    assert(secret@ =~= machine_secret(host@));
    if secret.len() == 0 {
        return Err(SecureFileError::NoHostIdentity);
    }
    Ok(secret)
}

/// The key that the host derives from a salt.
pub fn derive_software_key(host: &HostIdentity, salt: &[u8]) -> (result: Result<
    [u8; 32],
    SecureFileError,
>)
    ensures
        match result {
            Ok(key) => machine_secret(host@).len() > 0 && key@ == software_key(host@, salt@),
            Err(error) => machine_secret(host@).len() == 0 && error@ == ErrorView::NoHostIdentity,
        },
{
    match machine_secret_material(host) {
        Ok(secret) => Ok(derive_pbkdf2(secret.as_slice(), salt, PBKDF2_ITERATIONS)),
        Err(error) => Err(error),
    }
}

/// A payload is taken apart into what it was made of.
pub proof fn law_payload_parts(salt: Seq<u8>, nonce: Seq<u8>, ciphertext: Seq<u8>)
    requires
        salt.len() == 16,
        nonce.len() == 12,
    ensures
        assembled(salt, nonce, ciphertext).len() == HEADER_LEN + ciphertext.len(),
        salt_of(assembled(salt, nonce, ciphertext)) == salt,
        nonce_of(assembled(salt, nonce, ciphertext)) == nonce,
        ciphertext_of(assembled(salt, nonce, ciphertext)) == ciphertext,
{
    let payload = assembled(salt, nonce, ciphertext);
    assert(salt_of(payload) =~= salt);
    assert(nonce_of(payload) =~= nonce);
    assert(ciphertext_of(payload) =~= ciphertext);
}

/// Makes a payload of its parts.
pub fn assemble_payload(salt: &[u8; 16], nonce: &[u8; 12], ciphertext: &[u8]) -> (payload: Vec<u8>)
    ensures
        payload@ == assembled(salt@, nonce@, ciphertext@),
{
    let mut payload: Vec<u8> = Vec::new();
    payload.extend_from_slice(salt.as_slice());
    payload.extend_from_slice(nonce.as_slice());
    payload.extend_from_slice(ciphertext);
    assert(payload@ =~= assembled(salt@, nonce@, ciphertext@));
    payload
}

/// Takes a payload apart into salt, nonce and ciphertext.
pub fn split_payload(payload: &[u8]) -> (parts: Result<(&[u8], &[u8], &[u8]), SecureFileError>)
    ensures
        match parts {
            Ok((salt, nonce, ciphertext)) => {
                &&& payload@.len() >= HEADER_LEN
                &&& salt@ == salt_of(payload@)
                &&& nonce@ == nonce_of(payload@)
                &&& ciphertext@ == ciphertext_of(payload@)
            },
            Err(error) => payload@.len() < HEADER_LEN && error@ == ErrorView::PayloadTooShort,
        },
{
    if payload.len() < HEADER_LEN {
        return Err(SecureFileError::PayloadTooShort);
    }
    let salt = slice_subrange(payload, 0, SALT_LEN);
    let nonce = slice_subrange(payload, SALT_LEN, HEADER_LEN);
    let ciphertext = slice_subrange(payload, HEADER_LEN, payload.len());
    assert(salt@ =~= salt_of(payload@));
    assert(ciphertext@ =~= ciphertext_of(payload@));
    Ok((salt, nonce, ciphertext))
}

/// Seals `plain` under a given salt and nonce. What comes out, taken apart on the same host, gives
/// `plain` back.
pub fn protect_software_with(
    host: &HostIdentity,
    salt: &[u8; 16],
    nonce: &[u8; 12],
    plain: &[u8],
) -> (result: Result<Vec<u8>, SecureFileError>)
    requires
        plain@.len() + 16 <= isize::MAX,
    ensures
        bytes_outcome(result) == sealing(host@, salt@, nonce@, plain@),
        result matches Ok(payload) ==> payload@.len() == plain@.len() + 44,
        result matches Ok(payload) ==> unsealing(host@, payload@) == Ok::<_, ErrorView>(plain@),
{
    let key = match derive_software_key(host, salt.as_slice()) {
        Ok(key) => key,
        Err(error) => return Err(error),
    };
    let ciphertext = match encrypt_aes256gcm(&key, nonce.as_slice(), plain) {
        Ok(ciphertext) => ciphertext,
        Err(error) => return Err(SecureFileError::EncryptFailed(error)),
    };
    proof {
        law_payload_parts(salt@, nonce@, ciphertext@);
    }
    Ok(assemble_payload(salt, nonce, ciphertext.as_slice()))
}

/// Seals `plain` under a salt and a nonce drawn at random.
pub fn protect_software(host: &HostIdentity, plain: &[u8]) -> (result: Result<
    Vec<u8>,
    SecureFileError,
>)
    requires
        plain@.len() + 16 <= isize::MAX,
    ensures
        exists|salt: Seq<u8>, nonce: Seq<u8>|
            salt.len() == 16 && nonce.len() == 12 && bytes_outcome(result) == #[trigger] sealing(
                host@,
                salt,
                nonce,
                plain@,
            ),
        result matches Ok(payload) ==> payload@.len() == plain@.len() + 44,
        result matches Ok(payload) ==> unsealing(host@, payload@) == Ok::<_, ErrorView>(plain@),
{
    let salt: [u8; 16] = random_bytes();
    let nonce: [u8; 12] = random_bytes();
    protect_software_with(host, &salt, &nonce, plain)
}

/// Takes a payload apart and decrypts it.
pub fn unprotect_software(host: &HostIdentity, payload: &[u8]) -> (result: Result<
    Vec<u8>,
    SecureFileError,
>)
    ensures
        bytes_outcome(result) == unsealing(host@, payload@),
        result matches Ok(plain) ==> payload@.len() == plain@.len() + 44,
{
    let (salt, nonce, ciphertext) = match split_payload(payload) {
        Ok(parts) => parts,
        Err(error) => return Err(error),
    };
    let key = match derive_software_key(host, salt) {
        Ok(key) => key,
        Err(error) => return Err(error),
    };
    match decrypt_aes256gcm(&key, nonce, ciphertext) {
        Ok(plain) => Ok(plain),
        Err(error) => Err(SecureFileError::DecryptFailed(error)),
    }
}

} // verus!

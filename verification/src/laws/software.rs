//! What holds of the protection by the host's own key.

use vstd::prelude::*;
use vstd::utf8::encode_utf8;
use crate::error::{bytes_outcome, SecureFileError};
use crate::software::{aes256gcm_ciphertext, aes256gcm_plaintext, assemble_payload};
use crate::software::{derive_software_key, machine_secret, machine_secret_material};
use crate::software::{pbkdf2_sha256_key, protect_software, protect_software_with, sealing};
use crate::software::{split_payload, unprotect_software, HostIdentity};

verus! {

/// Whether a host tells nothing of itself: each of the three parts is missing or empty.
pub open spec fn tells_nothing(host: HostIdentity) -> bool {
    &&& host.machine_id matches Some(id) ==> id@.len() == 0
    &&& host.hostname matches Some(name) ==> name@.len() == 0
    &&& host.username matches Some(name) ==> name@.len() == 0
}

/// Text that is not empty has bytes, and empty text has none.
proof fn lemma_bytes_of_text(text: Seq<char>)
    ensures
        encode_utf8(text).len() == 0 <==> text.len() == 0,
{
    if text.len() > 0 {
        assert(vstd::utf8::encode_scalar(text[0] as u32).len() > 0);
    }
}

/// The secret of a host holds all that the host tells of itself: its machine id first, the user's
/// name last, the host's name between them, and nothing else.
pub proof fn law_secret_holds_every_part(
    host: HostIdentity,
    id: Seq<u8>,
    hostname: Seq<u8>,
    username: Seq<u8>,
)
    requires
        match host.machine_id {
            Some(given) => id == given@,
            None => id.len() == 0,
        },
        match host.hostname {
            Some(given) => hostname == encode_utf8(given@),
            None => hostname.len() == 0,
        },
        match host.username {
            Some(given) => username == encode_utf8(given@),
            None => username.len() == 0,
        },
    ensures
        machine_secret(host@).len() == id.len() + hostname.len() + username.len(),
        machine_secret(host@).take(id.len() as int) == id,
        machine_secret(host@).subrange(id.len() as int, (id.len() + hostname.len()) as int)
            == hostname,
        machine_secret(host@).skip((id.len() + hostname.len()) as int) == username,
{
    let secret = machine_secret(host@);
    assert(secret.take(id.len() as int) =~= id);
    assert(secret.subrange(id.len() as int, (id.len() + hostname.len()) as int) =~= hostname);
    assert(secret.skip((id.len() + hostname.len()) as int) =~= username);
}

/// A host has no secret exactly where it tells nothing of itself.
pub proof fn law_no_secret_of_nothing(host: HostIdentity)
    ensures
        machine_secret(host@).len() == 0 <==> tells_nothing(host),
{
    if let Some(name) = host.hostname {
        lemma_bytes_of_text(name@);
    }
    if let Some(name) = host.username {
        lemma_bytes_of_text(name@);
    }
}

/// The material for a key is refused exactly where the host tells nothing of itself; else it holds
/// the machine id first, the user's name last, the host's name between them, and nothing else.
pub proof fn law_material_holds_every_part(
    host: &HostIdentity,
    id: Seq<u8>,
    hostname: Seq<u8>,
    username: Seq<u8>,
    result: Result<Vec<u8>, SecureFileError>,
)
    requires
        call_ensures(machine_secret_material, (host,), result),
        match host.machine_id {
            Some(given) => id == given@,
            None => id.len() == 0,
        },
        match host.hostname {
            Some(given) => hostname == encode_utf8(given@),
            None => hostname.len() == 0,
        },
        match host.username {
            Some(given) => username == encode_utf8(given@),
            None => username.len() == 0,
        },
    ensures
        result is Err <==> tells_nothing(*host),
        result matches Err(error) ==> error is NoHostIdentity,
        result matches Ok(secret) ==> secret@ == id + hostname + username,
        result matches Ok(secret) ==> {
            &&& secret@.len() == id.len() + hostname.len() + username.len()
            &&& secret@.take(id.len() as int) == id
            &&& secret@.subrange(id.len() as int, (id.len() + hostname.len()) as int) == hostname
            &&& secret@.skip((id.len() + hostname.len()) as int) == username
        },
{
    law_no_secret_of_nothing(*host);
    law_secret_holds_every_part(*host, id, hostname, username);
    assert(machine_secret(host@) =~= id + hostname + username);
}

/// A host's key comes of its secret and the salt, in 600 000 rounds of PBKDF2, and fails only for
/// want of a secret.
pub proof fn law_key_comes_of_the_secret(
    host: &HostIdentity,
    salt: &[u8],
    material: Result<Vec<u8>, SecureFileError>,
    result: Result<[u8; 32], SecureFileError>,
)
    requires
        call_ensures(machine_secret_material, (host,), material),
        call_ensures(derive_software_key, (host, salt), result),
    ensures
        result is Err <==> tells_nothing(*host),
        result matches Err(error) ==> error is NoHostIdentity,
        result matches Ok(key) ==> (material matches Ok(secret) && key@ == pbkdf2_sha256_key(
            secret@,
            salt@,
            600_000,
        )),
{
    law_no_secret_of_nothing(*host);
}

/// A payload is the salt, the nonce and the ciphertext, one after the other.
pub proof fn law_payload_holds_its_parts(
    salt: &[u8; 16],
    nonce: &[u8; 12],
    ciphertext: &[u8],
    payload: Vec<u8>,
)
    requires
        call_ensures(assemble_payload, (salt, nonce, ciphertext), payload),
    ensures
        payload@.len() == 28 + ciphertext@.len(),
        payload@.take(16) == salt@,
        payload@.subrange(16, 28) == nonce@,
        payload@.skip(28) == ciphertext@,
{
    assert(payload@.take(16) =~= salt@);
    assert(payload@.subrange(16, 28) =~= nonce@);
    assert(payload@.skip(28) =~= ciphertext@);
}

/// A payload is too short exactly where it has less than 28 bytes; else its first 16 bytes are the
/// salt, the next 12 the nonce, and the rest the ciphertext.
pub proof fn law_payload_is_split_where_it_was_joined(
    payload: &[u8],
    parts: Result<(&[u8], &[u8], &[u8]), SecureFileError>,
)
    requires
        call_ensures(split_payload, (payload,), parts),
    ensures
        parts is Err <==> payload@.len() < 28,
        parts matches Err(error) ==> error is PayloadTooShort,
        parts matches Ok((salt, nonce, ciphertext)) ==> {
            &&& salt@.len() == 16
            &&& nonce@.len() == 12
            &&& payload@ == salt@ + nonce@ + ciphertext@
        },
{
    if let Ok((salt, nonce, ciphertext)) = parts {
        assert(payload@ =~= salt@ + nonce@ + ciphertext@);
    }
}

/// Sealing fails exactly where the host tells nothing of itself or the text is longer than the
/// cipher takes. A sealed text is the salt, the nonce, and what the cipher makes of the text under
/// the host's key for this salt.
pub proof fn law_sealing(
    host: &HostIdentity,
    salt: &[u8; 16],
    nonce: &[u8; 12],
    plain: &[u8],
    result: Result<Vec<u8>, SecureFileError>,
)
    requires
        call_ensures(protect_software_with, (host, salt, nonce, plain), result),
    ensures
        result is Ok <==> !tells_nothing(*host) && plain@.len() <= 68_719_476_736,
        result matches Err(error) ==> if tells_nothing(*host) {
            error is NoHostIdentity
        } else {
            error matches SecureFileError::EncryptFailed(text) && text@ == "aead::Error"@
        },
        result matches Ok(payload) ==> {
            &&& payload@.len() == plain@.len() + 44
            &&& payload@.take(16) == salt@
            &&& payload@.subrange(16, 28) == nonce@
            &&& payload@.skip(28) == aes256gcm_ciphertext(
                pbkdf2_sha256_key(machine_secret(host@), salt@, 600_000),
                nonce@,
                plain@,
            )
        },
{
    law_no_secret_of_nothing(*host);
    if let Ok(payload) = result {
        assert(payload@.take(16) =~= salt@);
        assert(payload@.subrange(16, 28) =~= nonce@);
        assert(payload@.skip(28) =~= aes256gcm_ciphertext(
            pbkdf2_sha256_key(machine_secret(host@), salt@, 600_000),
            nonce@,
            plain@,
        ));
    }
}

/// Sealing under a salt and a nonce drawn at random fails on the same inputs, and makes a payload
/// of the same shape, whatever was drawn.
pub proof fn law_sealing_at_random(
    host: &HostIdentity,
    plain: &[u8],
    result: Result<Vec<u8>, SecureFileError>,
)
    requires
        call_ensures(protect_software, (host, plain), result),
    ensures
        result is Ok <==> !tells_nothing(*host) && plain@.len() <= 68_719_476_736,
        result matches Err(error) ==> if tells_nothing(*host) {
            error is NoHostIdentity
        } else {
            error matches SecureFileError::EncryptFailed(text) && text@ == "aead::Error"@
        },
        result matches Ok(payload) ==> {
            &&& payload@.len() == plain@.len() + 44
            &&& payload@.skip(28) == aes256gcm_ciphertext(
                pbkdf2_sha256_key(machine_secret(host@), payload@.take(16), 600_000),
                payload@.subrange(16, 28),
                plain@,
            )
        },
{
    law_no_secret_of_nothing(*host);
    if let Ok(payload) = result {
        let (salt, nonce) = choose|salt: Seq<u8>, nonce: Seq<u8>|
            salt.len() == 16 && nonce.len() == 12 && bytes_outcome(result) == #[trigger] sealing(
                host@,
                salt,
                nonce,
                plain@,
            );
        assert(payload@.take(16) =~= salt);
        assert(payload@.subrange(16, 28) =~= nonce);
        assert(payload@.skip(28) =~= aes256gcm_ciphertext(
            pbkdf2_sha256_key(machine_secret(host@), salt, 600_000),
            nonce,
            plain@,
        ));
    }
}

/// Unsealing gives what the cipher takes out of the bytes from the 28th on, under the host's key for
/// the first 16 bytes and with the 12 bytes between them for nonce, and nothing else: where the
/// cipher refuses them, where the payload is too short and where the host tells nothing of itself,
/// it is an error.
pub proof fn law_unsealing(
    host: &HostIdentity,
    payload: &[u8],
    result: Result<Vec<u8>, SecureFileError>,
)
    requires
        call_ensures(unprotect_software, (host, payload), result),
    ensures
        payload@.len() < 28 ==> (result matches Err(error) && error is PayloadTooShort),
        payload@.len() >= 28 && tells_nothing(*host) ==> (result matches Err(error) && error
            is NoHostIdentity),
        payload@.len() >= 28 && !tells_nothing(*host) ==> ({
            let opened = aes256gcm_plaintext(
                pbkdf2_sha256_key(machine_secret(host@), payload@.take(16), 600_000),
                payload@.subrange(16, 28),
                payload@.skip(28),
            );
            match opened {
                Some(plain) => result matches Ok(given) && given@ == plain,
                None => result matches Err(SecureFileError::DecryptFailed(text)) && text@
                    == "aead::Error"@,
            }
        }),
        result matches Ok(plain) ==> payload@.len() == plain@.len() + 44,
{
    law_no_secret_of_nothing(*host);
}

/// What a host sealed, the same host unseals.
pub proof fn law_unsealing_undoes_sealing(
    host: &HostIdentity,
    salt: &[u8; 16],
    nonce: &[u8; 12],
    plain: &[u8],
    sealed: Vec<u8>,
    payload: &[u8],
    result: Result<Vec<u8>, SecureFileError>,
)
    requires
        call_ensures(protect_software_with, (host, salt, nonce, plain), Ok(sealed))
            || call_ensures(protect_software, (host, plain), Ok(sealed)),
        payload@ == sealed@,
        call_ensures(unprotect_software, (host, payload), result),
    ensures
        result matches Ok(given) && given@ == plain@,
{
}

} // verus!

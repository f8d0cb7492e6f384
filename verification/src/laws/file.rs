//! What holds of a file: how its state is told, how it is read, and how it is written.

use vstd::prelude::*;
use vstd::utf8::{encode_utf8, valid_utf8};
use crate::armor::{base64_complaint, base64_text, is_base64, lemma_base64_round_trip};
use crate::envelope::{envelope_outcome, found_status, is_writable, lemma_software_is_not_dpapi};
use crate::envelope::{next_read_step, plain_text, read_outcome, read_string, read_string_dpapi};
use crate::envelope::{status, write_outcome, write_string, write_string_dpapi, write_string_with};
use crate::envelope::{EnvelopeView, FoundFile, ProtectedFile, ReadStep, SecureFileStatus};
use crate::envelope::StatusView;
use crate::error::{error_kind, DpapiCall, ErrorKind, ErrorView, SecureFileError};
use crate::laws::armor::law_base64_length;
use crate::laws::software::{law_no_secret_of_nothing, tells_nothing};
use crate::platform::DpapiReply;
use crate::software::{aes256gcm_ciphertext, aes256gcm_plaintext, machine_secret};
use crate::software::{pbkdf2_sha256_key, HostIdentity, HostView};
use crate::text::{decimal, utf8_complaint};

verus! {

/// Whether an envelope is of this format and version.
pub open spec fn is_ours(file: ProtectedFile) -> bool {
    file.format@ == "codexbar.secure-file"@ && file.version == 1
}

/// Whether Windows protects what is in an envelope.
pub open spec fn by_windows(file: ProtectedFile) -> bool {
    file.protection@ == "windows-dpapi-user"@ || file.protection@ == "windows-dpapi-machine"@
}

/// Whether the host's own key protects what is in an envelope.
pub open spec fn by_host(file: ProtectedFile) -> bool {
    file.protection@ == "software-aes256gcm-v1"@
}

/// What the cipher takes out of a payload on a host.
pub open spec fn opened(host: HostIdentity, payload: Seq<u8>) -> Option<Seq<u8>> {
    aes256gcm_plaintext(
        pbkdf2_sha256_key(machine_secret(host@), payload.take(16), 600_000),
        payload.subrange(16, 28),
        payload.skip(28),
    )
}

/// The three protections are told apart by their names.
proof fn lemma_protections_differ(file: ProtectedFile)
    ensures
        !(by_windows(file) && by_host(file)),
        "windows-dpapi-user"@ != "windows-dpapi-machine"@,
{
    lemma_software_is_not_dpapi();
    reveal_strlit("windows-dpapi-user");
    reveal_strlit("windows-dpapi-machine");
    assert("windows-dpapi-user"@.len() != "windows-dpapi-machine"@.len());
}

/// A file is missing where there is none, and unreadable, for the very reason, where it could not be
/// read. It is plain text exactly where it is no envelope of this format. An envelope of this format
/// is protected, by what it names, exactly where its version and its protection are known; else it
/// is unreadable, and the reason names what is not known.
pub proof fn law_status(found: FoundFile, result: SecureFileStatus)
    requires
        call_ensures(status, (found,), result),
    ensures
        result is Missing <==> found is Missing,
        found matches FoundFile::Unreadable(reason) ==> (result matches
            SecureFileStatus::Unreadable(told) && told@ == reason@),
        result is Plaintext <==> (found matches FoundFile::Text(text) && (text matches Some(file)
            ==> file.format@ != "codexbar.secure-file"@)),
        result is Protected <==> (found matches FoundFile::Text(Some(file)) && is_ours(file) && (
        by_windows(file) || by_host(file))),
        found matches FoundFile::Text(Some(file)) ==> {
            &&& result matches SecureFileStatus::Protected(name) ==> name@ == file.protection@
            &&& result matches SecureFileStatus::Unreadable(told) ==> told@ == (if file.version
                != 1 {
                "unsupported secure file version "@ + decimal(file.version as nat)
            } else {
                "unsupported secure file protection "@ + file.protection@
            })
        },
{
}

/// An envelope of this format and version under any of the three known protections is protected by
/// what it names, whatever its payload.
pub proof fn law_known_protection_is_protected(file: ProtectedFile)
    requires
        is_ours(file),
        by_windows(file) || by_host(file),
    ensures
        found_status(FoundFile::Text(Some(file))) == StatusView::Protected(file.protection@),
{
}

/// The payload has no part in the status of a file.
pub proof fn law_status_does_not_see_the_payload(
    a: ProtectedFile,
    b: ProtectedFile,
    of_a: SecureFileStatus,
    of_b: SecureFileStatus,
)
    requires
        a.format@ == b.format@,
        a.version == b.version,
        a.protection@ == b.protection@,
        call_ensures(status, (FoundFile::Text(Some(a)),), of_a),
        call_ensures(status, (FoundFile::Text(Some(b)),), of_b),
    ensures
        match (of_a, of_b) {
            (SecureFileStatus::Plaintext, SecureFileStatus::Plaintext) => true,
            (SecureFileStatus::Protected(x), SecureFileStatus::Protected(y)) => x@ == y@,
            (SecureFileStatus::Unreadable(x), SecureFileStatus::Unreadable(y)) => x@ == y@,
            _ => false,
        },
{
}

/// Text that is no envelope of this format is read as it is, on every host.
pub proof fn law_plain_text_is_read_as_it_is(
    host: &HostIdentity,
    raw: String,
    file: Option<ProtectedFile>,
    result: Result<String, SecureFileError>,
)
    requires
        call_ensures(read_string, (host, raw, file), result),
        file matches Some(envelope) ==> envelope.format@ != "codexbar.secure-file"@,
    ensures
        result matches Ok(text) && text@ == raw@,
{
}

/// An envelope of this format with a version or a protection that is not known, or with a payload
/// that is not base64, is refused, in this order, and so is one that Windows protects, on a host
/// that is not Windows. Nothing of the file is handed back.
pub proof fn law_what_is_not_understood_is_refused(
    host: &HostIdentity,
    raw: String,
    file: ProtectedFile,
    result: Result<String, SecureFileError>,
)
    requires
        call_ensures(read_string, (host, raw, Some(file)), result),
        file.format@ == "codexbar.secure-file"@,
    ensures
        file.version != 1 ==> (result matches Err(SecureFileError::UnsupportedVersion(version))
            && version == file.version),
        file.version == 1 && !by_windows(file) && !by_host(file) ==> (result matches Err(
            SecureFileError::UnsupportedProtection(name),
        ) && name@ == file.protection@),
        file.version == 1 && (by_windows(file) || by_host(file)) && !is_base64(file.payload@) ==> (
        result matches Err(SecureFileError::InvalidBase64(complaint)) && complaint@
            == base64_complaint(file.payload@)),
        file.version == 1 && by_windows(file) && is_base64(file.payload@) ==> (result matches Err(
            error,
        ) && error is DpapiUnavailable),
        result is Ok ==> is_ours(file) && by_host(file) && is_base64(file.payload@),
{
    lemma_protections_differ(file);
}

/// What the host's own key protects is read exactly as the cipher opens it. A payload too short for
/// salt and nonce, a host that tells nothing of itself, and above all a payload that the cipher does
/// not open, are errors; where text is read, its bytes are what the cipher opened.
pub proof fn law_reading_is_what_the_cipher_opens(
    host: &HostIdentity,
    raw: String,
    file: ProtectedFile,
    payload: Seq<u8>,
    result: Result<String, SecureFileError>,
)
    requires
        call_ensures(read_string, (host, raw, Some(file)), result),
        is_ours(file),
        by_host(file),
        file.payload@ == base64_text(payload),
    ensures
        payload.len() < 28 ==> (result matches Err(error) && error is PayloadTooShort),
        payload.len() >= 28 && tells_nothing(*host) ==> (result matches Err(error) && error
            is NoHostIdentity),
        payload.len() >= 28 && !tells_nothing(*host) ==> match opened(*host, payload) {
            None => result matches Err(SecureFileError::DecryptFailed(text)) && text@
                == "aead::Error"@ && error_kind(result->Err_0@) == ErrorKind::InvalidData,
            Some(plain) => if valid_utf8(plain) {
                result matches Ok(text) && encode_utf8(text@) == plain
            } else {
                result matches Err(SecureFileError::InvalidUtf8(complaint)) && complaint@
                    == utf8_complaint(plain)
            },
        },
        result matches Ok(text) ==> {
            &&& payload.len() >= 28
            &&& !tells_nothing(*host)
            &&& opened(*host, payload) == Some(encode_utf8(text@))
        },
{
    broadcast use vstd::utf8::decode_utf8_encode_utf8;

    lemma_protections_differ(file);
    lemma_base64_round_trip(payload);
    law_no_secret_of_nothing(*host);
}

/// The same of every host and every envelope, told in sequences: where the cipher refuses the
/// payload, reading is an error of invalid data, and what is read has the bytes that the cipher
/// opened.
pub proof fn law_nothing_is_read_that_the_cipher_refuses(
    host: HostView,
    raw: Seq<char>,
    file: EnvelopeView,
    payload: Seq<u8>,
)
    requires
        file.format == "codexbar.secure-file"@,
        file.version == 1,
        file.protection == "software-aes256gcm-v1"@,
        file.payload == base64_text(payload),
        payload.len() >= 28,
        machine_secret(host).len() > 0,
    ensures
        ({
            let opened = aes256gcm_plaintext(
                pbkdf2_sha256_key(machine_secret(host), payload.take(16), 600_000),
                payload.subrange(16, 28),
                payload.skip(28),
            );
            &&& opened is None ==> (read_outcome(host, raw, Some(file)) matches Err(error)
                && error_kind(error) == ErrorKind::InvalidData)
            &&& read_outcome(host, raw, Some(file)) matches Ok(text) ==> opened == Some(
                encode_utf8(text),
            )
            &&& opened matches Some(plain) ==> (read_outcome(host, raw, Some(file)) is Ok
                <==> valid_utf8(plain))
        }),
{
    broadcast use vstd::utf8::decode_utf8_encode_utf8;

    lemma_software_is_not_dpapi();
    lemma_base64_round_trip(payload);
}

/// Nothing is left to do for text that is no envelope of this format: it is the text of the file.
pub proof fn law_nothing_to_do_for_plain_text(
    raw: String,
    file: Option<ProtectedFile>,
    result: Result<ReadStep, SecureFileError>,
)
    requires
        call_ensures(next_read_step, (raw, file), result),
    ensures
        (result matches Ok(step) && step is Text) <==> (file matches Some(given) ==> given.format@
            != "codexbar.secure-file"@),
        result matches Ok(ReadStep::Text(text)) ==> text@ == raw@,
{
}

/// What is left to do for an envelope of this format follows its protection: the payload, byte for
/// byte, goes to Windows or to the cipher. What is not understood is refused.
pub proof fn law_next_step(
    raw: String,
    file: ProtectedFile,
    payload: Seq<u8>,
    result: Result<ReadStep, SecureFileError>,
)
    requires
        call_ensures(next_read_step, (raw, Some(file)), result),
        file.format@ == "codexbar.secure-file"@,
    ensures
        is_ours(file) && by_windows(file) && file.payload@ == base64_text(payload) ==> (
        result matches Ok(ReadStep::Dpapi(bytes)) && bytes@ == payload),
        is_ours(file) && by_host(file) && file.payload@ == base64_text(payload) ==> (
        result matches Ok(ReadStep::Software(bytes)) && bytes@ == payload),
        result is Ok <==> is_ours(file) && (by_windows(file) || by_host(file)) && is_base64(
            file.payload@,
        ),
        result matches Ok(step) ==> (step is Dpapi <==> by_windows(file)) && (step is Software
            <==> by_host(file)),
        result matches Err(error) ==> if file.version != 1 {
            error matches SecureFileError::UnsupportedVersion(version) && version == file.version
        } else if !by_windows(file) && !by_host(file) {
            error matches SecureFileError::UnsupportedProtection(name) && name@ == file.protection@
        } else {
            error matches SecureFileError::InvalidBase64(complaint) && complaint@
                == base64_complaint(file.payload@)
        },
{
    lemma_base64_round_trip(payload);
    lemma_protections_differ(file);
}

/// Bytes hold text exactly where they are UTF-8, and then the text whose bytes they are.
pub proof fn law_plain_text(plain: Vec<u8>, result: Result<String, SecureFileError>)
    requires
        call_ensures(plain_text, (plain,), result),
    ensures
        result is Ok <==> valid_utf8(plain@),
        result matches Ok(text) ==> encode_utf8(text@) == plain@,
        result matches Err(error) ==> (error matches SecureFileError::InvalidUtf8(complaint)
            && complaint@ == utf8_complaint(plain@)),
{
    broadcast use vstd::utf8::decode_utf8_encode_utf8;

}

/// What Windows gives back is read as the text whose bytes it is, and its failure is an error with
/// the reason that it gave.
pub proof fn law_reading_from_windows(reply: DpapiReply, result: Result<String, SecureFileError>)
    requires
        call_ensures(read_string_dpapi, (reply,), result),
    ensures
        result is Ok <==> (reply matches DpapiReply::Output(plain) && valid_utf8(plain@)),
        result matches Ok(text) ==> (reply matches DpapiReply::Output(plain) && encode_utf8(text@)
            == plain@),
        reply matches DpapiReply::Output(plain) ==> (result matches Err(error) ==> (
        error matches SecureFileError::InvalidUtf8(complaint) && complaint@ == utf8_complaint(
            plain@,
        ))),
        reply matches DpapiReply::Failed(reason) ==> (result matches Err(
            SecureFileError::DpapiFailed(call, text),
        ) && call == DpapiCall::Unprotect && text@ == reason@),
        reply is Null ==> (result matches Err(SecureFileError::DpapiNullOutput(call)) && call
            == DpapiCall::Unprotect),
{
    broadcast use vstd::utf8::decode_utf8_encode_utf8;

}

/// What a host writes is an envelope of this format and version that names the host's own key, with
/// the base64 of salt, nonce and what the cipher makes of the bytes of the text. Writing fails
/// exactly where the host tells nothing of itself or the text is longer than the cipher takes.
pub proof fn law_writing(
    host: &HostIdentity,
    salt: &[u8; 16],
    nonce: &[u8; 12],
    contents: &str,
    result: Result<ProtectedFile, SecureFileError>,
)
    requires
        call_ensures(write_string_with, (host, salt, nonce, contents), result),
    ensures
        result is Ok <==> !tells_nothing(*host) && encode_utf8(contents@).len() <= 68_719_476_736,
        result matches Err(error) ==> if tells_nothing(*host) {
            error is NoHostIdentity
        } else {
            error matches SecureFileError::EncryptFailed(text) && text@ == "aead::Error"@
        },
        result matches Ok(file) ==> {
            &&& is_ours(file)
            &&& by_host(file)
            &&& file.payload@ == base64_text(
                salt@ + nonce@ + aes256gcm_ciphertext(
                    pbkdf2_sha256_key(machine_secret(host@), salt@, 600_000),
                    nonce@,
                    encode_utf8(contents@),
                ),
            )
        },
{
    law_no_secret_of_nothing(*host);
}

/// Under a salt and a nonce drawn at random writing fails on the same inputs, and makes an envelope
/// of the same shape, whatever was drawn.
pub proof fn law_writing_at_random(
    host: &HostIdentity,
    contents: &str,
    result: Result<ProtectedFile, SecureFileError>,
)
    requires
        call_ensures(write_string, (host, contents), result),
    ensures
        result is Ok <==> !tells_nothing(*host) && encode_utf8(contents@).len() <= 68_719_476_736,
        result matches Err(error) ==> if tells_nothing(*host) {
            error is NoHostIdentity
        } else {
            error matches SecureFileError::EncryptFailed(text) && text@ == "aead::Error"@
        },
        result matches Ok(file) ==> is_ours(file) && by_host(file),
        result matches Ok(file) ==> exists|salt: Seq<u8>, nonce: Seq<u8>|
            salt.len() == 16 && nonce.len() == 12 && file.payload@ == base64_text(
                salt + nonce + #[trigger] aes256gcm_ciphertext(
                    pbkdf2_sha256_key(machine_secret(host@), salt, 600_000),
                    nonce,
                    encode_utf8(contents@),
                ),
            ),
{
    law_no_secret_of_nothing(*host);
    let (salt, nonce) = choose|salt: Seq<u8>, nonce: Seq<u8>|
        salt.len() == 16 && nonce.len() == 12 && envelope_outcome(result)
            == #[trigger] write_outcome(host@, salt, nonce, contents@);
    if let Ok(file) = result {
        let key = pbkdf2_sha256_key(machine_secret(host@), salt, 600_000);
        let ciphertext = aes256gcm_ciphertext(key, nonce, encode_utf8(contents@));
        assert(file.payload@ == base64_text(salt + nonce + ciphertext));
    }
}

/// What a host wrote, the same host reads, whatever else the file holds.
pub proof fn law_reading_undoes_writing(
    host: &HostIdentity,
    salt: &[u8; 16],
    nonce: &[u8; 12],
    contents: &str,
    file: ProtectedFile,
    raw: String,
    result: Result<String, SecureFileError>,
)
    requires
        call_ensures(write_string_with, (host, salt, nonce, contents), Ok(file)) || call_ensures(
            write_string,
            (host, contents),
            Ok(file),
        ),
        call_ensures(read_string, (host, raw, Some(file)), result),
    ensures
        result matches Ok(text) && text@ == contents@,
{
}

/// A written file is seen as protected, by what wrote it.
pub proof fn law_what_is_written_is_protected(
    host: &HostIdentity,
    salt: &[u8; 16],
    nonce: &[u8; 12],
    contents: &str,
    reply: DpapiReply,
    file: ProtectedFile,
    result: SecureFileStatus,
)
    requires
        call_ensures(status, (FoundFile::Text(Some(file)),), result),
    ensures
        call_ensures(write_string_with, (host, salt, nonce, contents), Ok(file)) || call_ensures(
            write_string,
            (host, contents),
            Ok(file),
        ) ==> (result matches SecureFileStatus::Protected(name) && name@
            == "software-aes256gcm-v1"@),
        call_ensures(write_string_dpapi, (reply,), Ok(file)) ==> (result matches
            SecureFileStatus::Protected(name) && name@ == "windows-dpapi-user"@),
{
    if call_ensures(write_string, (host, contents), Ok(file)) {
        law_writing_at_random(host, contents, Ok(file));
    }
}

/// The same of every envelope that writing comes to, told in sequences.
pub proof fn law_every_written_envelope_is_protected(
    host: HostView,
    salt: Seq<u8>,
    nonce: Seq<u8>,
    contents: Seq<char>,
    file: ProtectedFile,
)
    requires
        write_outcome(host, salt, nonce, contents) == Ok::<_, ErrorView>(file@),
    ensures
        is_ours(file),
        found_status(FoundFile::Text(Some(file))) == StatusView::Protected(
            "software-aes256gcm-v1"@,
        ),
{
}

/// What Windows protected is written for the current user, in the base64 of its bytes; where Windows
/// failed nothing is written, and the error gives the reason.
pub proof fn law_writing_with_windows(
    reply: DpapiReply,
    result: Result<ProtectedFile, SecureFileError>,
)
    requires
        call_ensures(write_string_dpapi, (reply,), result),
    ensures
        result is Ok <==> reply is Output,
        reply matches DpapiReply::Output(bytes) ==> (result matches Ok(file) && is_ours(file)
            && file.protection@ == "windows-dpapi-user"@ && file.payload@ == base64_text(bytes@)),
        reply matches DpapiReply::Failed(reason) ==> (result matches Err(
            SecureFileError::UserScopeFailed(text),
        ) && text@ == "CryptProtectData"@ + " failed: "@ + reason@),
        reply is Null ==> (result matches Err(SecureFileError::UserScopeFailed(text)) && text@
            == "CryptProtectData"@ + " returned null output"@),
{
}

/// A text of some length can be written exactly where the base64 of salt, nonce, text and tag, 44
/// bytes more than the text, fits into memory.
pub proof fn law_what_fits(len: usize, sealed: Seq<u8>, fits: bool)
    requires
        call_ensures(is_writable, (len,), fits),
        sealed.len() == len + 44,
    ensures
        fits <==> base64_text(sealed).len() <= isize::MAX,
{
    law_base64_length(sealed);
}

} // verus!

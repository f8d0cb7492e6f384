//! The envelope around protected text, and what is read from and written to a file.

use vstd::prelude::*;
use vstd::utf8::{decode_utf8, encode_utf8, valid_utf8};
use crate::armor::{base64_bytes, base64_complaint, base64_text, decode_base64, encodable};
use crate::armor::{encode_base64, is_encodable, lemma_base64_round_trip};
use crate::error::{bytes_outcome, error_message, text_outcome, DpapiCall, ErrorView};
use crate::error::SecureFileError;
use crate::platform::{dpapi_bytes, protect, reply_outcome, unprotect, user_scope_outcome};
use crate::platform::DpapiReply;
use crate::software::{protect_software, protect_software_with, sealing, unprotect_software};
use crate::software::{unsealing, HostIdentity, HostView};
use crate::text::{same_text, text_of_utf8, utf8_complaint};

verus! {

/// What an envelope calls its own format.
pub const FORMAT: &'static str = "codexbar.secure-file";

/// The version of the format.
pub const VERSION: u32 = 1;

/// Protection by Windows for the current user.
pub const WINDOWS_DPAPI_USER: &'static str = "windows-dpapi-user";

/// Protection by Windows for the machine.
pub const WINDOWS_DPAPI_MACHINE: &'static str = "windows-dpapi-machine";

/// Protection by AES-256-GCM under a key that the host derives.
pub const SOFTWARE_AES256_GCM: &'static str = "software-aes256gcm-v1";

/// The envelope: what protects the text, and the protected bytes in base64.
#[derive(Debug)]
pub struct ProtectedFile {
    pub format: String,
    pub version: u32,
    pub protection: String,
    pub payload: String,
}

/// A [`ProtectedFile`] with its texts as sequences of characters.
pub struct EnvelopeView {
    pub format: Seq<char>,
    pub version: u32,
    pub protection: Seq<char>,
    pub payload: Seq<char>,
}

impl View for ProtectedFile {
    type V = EnvelopeView;

    open spec fn view(&self) -> EnvelopeView {
        EnvelopeView {
            format: self.format@,
            version: self.version,
            protection: self.protection@,
            payload: self.payload@,
        }
    }
}

/// An envelope where there is one, with its texts as sequences of characters.
pub open spec fn envelope_view(file: Option<ProtectedFile>) -> Option<EnvelopeView> {
    match file {
        Some(file) => Some(file@),
        None => None,
    }
}

/// How a file is stored.
#[derive(Debug, Clone, PartialEq, Eq)]
pub enum SecureFileStatus {
    Missing,
    Plaintext,
    Protected(String),
    Unreadable(String),
}

/// A [`SecureFileStatus`] with its texts as sequences of characters.
pub enum StatusView {
    Missing,
    Plaintext,
    Protected(Seq<char>),
    Unreadable(Seq<char>),
}

impl View for SecureFileStatus {
    type V = StatusView;

    open spec fn view(&self) -> StatusView {
        match self {
            SecureFileStatus::Missing => StatusView::Missing,
            SecureFileStatus::Plaintext => StatusView::Plaintext,
            SecureFileStatus::Protected(name) => StatusView::Protected(name@),
            SecureFileStatus::Unreadable(reason) => StatusView::Unreadable(reason@),
        }
    }
}

/// What was found where a file is looked for.
#[derive(Debug)]
pub enum FoundFile {
    /// There is no file.
    Missing,
    /// The file could not be read as text, for this reason.
    Unreadable(String),
    /// The file holds text, and this envelope if the text is one.
    Text(Option<ProtectedFile>),
}

/// Whether an envelope with this protection can be read on some host.
pub open spec fn is_supported(protection: Seq<char>) -> bool {
    ||| is_dpapi(protection)
    ||| protection == SOFTWARE_AES256_GCM@
}

/// Whether this is a protection by Windows.
pub open spec fn is_dpapi(protection: Seq<char>) -> bool {
    ||| protection == WINDOWS_DPAPI_USER@
    ||| protection == WINDOWS_DPAPI_MACHINE@
}

/// How text is stored that parses as this envelope, or as none.
pub open spec fn text_status(file: Option<EnvelopeView>) -> StatusView {
    match file {
        None => StatusView::Plaintext,
        Some(file) => if file.format != FORMAT@ {
            StatusView::Plaintext
        } else if file.version != VERSION {
            StatusView::Unreadable(error_message(ErrorView::UnsupportedVersion(file.version)))
        } else if is_supported(file.protection) {
            StatusView::Protected(file.protection)
        } else {
            StatusView::Unreadable(error_message(ErrorView::UnsupportedProtection(file.protection)))
        },
    }
}

/// How a file is stored.
pub open spec fn found_status(found: FoundFile) -> StatusView {
    match found {
        FoundFile::Missing => StatusView::Missing,
        FoundFile::Unreadable(reason) => StatusView::Unreadable(reason@),
        FoundFile::Text(file) => text_status(envelope_view(file)),
    }
}

/// How a file is stored, without its secrets.
pub fn status(found: FoundFile) -> (status: SecureFileStatus)
    ensures
        status@ == found_status(found),
{
    let file = match found {
        FoundFile::Missing => return SecureFileStatus::Missing,
        FoundFile::Unreadable(reason) => return SecureFileStatus::Unreadable(reason),
        FoundFile::Text(None) => return SecureFileStatus::Plaintext,
        FoundFile::Text(Some(file)) => file,
    };
    if !same_text(&file.format, FORMAT) {
        return SecureFileStatus::Plaintext;
    }
    if file.version != VERSION {
        return SecureFileStatus::Unreadable(
            SecureFileError::UnsupportedVersion(file.version).message(),
        );
    }
    if same_text(&file.protection, WINDOWS_DPAPI_USER) || same_text(
        &file.protection,
        WINDOWS_DPAPI_MACHINE,
    ) || same_text(&file.protection, SOFTWARE_AES256_GCM) {
        SecureFileStatus::Protected(file.protection)
    } else {
        SecureFileStatus::Unreadable(
            SecureFileError::UnsupportedProtection(file.protection).message(),
        )
    }
}

/// What is left to do for the text of a file.
#[derive(Debug)]
pub enum ReadStep {
    /// Nothing: this is the text.
    Text(String),
    /// Windows has to give back what it protected.
    Dpapi(Vec<u8>),
    /// The host has to decrypt this payload.
    Software(Vec<u8>),
}

/// A [`ReadStep`] with its parts as sequences.
pub enum StepView {
    Text(Seq<char>),
    Dpapi(Seq<u8>),
    Software(Seq<u8>),
}

impl View for ReadStep {
    type V = StepView;

    open spec fn view(&self) -> StepView {
        match self {
            ReadStep::Text(text) => StepView::Text(text@),
            ReadStep::Dpapi(bytes) => StepView::Dpapi(bytes@),
            ReadStep::Software(bytes) => StepView::Software(bytes@),
        }
    }
}

/// The protected bytes of an envelope.
pub open spec fn payload_bytes(payload: Seq<char>) -> Result<Seq<u8>, ErrorView> {
    match base64_bytes(payload) {
        Some(bytes) => Ok(bytes),
        None => Err(ErrorView::InvalidBase64(base64_complaint(payload))),
    }
}

/// What is left to do for a file with the text `raw`, which parses as this envelope, or as none.
pub open spec fn read_step(raw: Seq<char>, file: Option<EnvelopeView>) -> Result<
    StepView,
    ErrorView,
> {
    match file {
        None => Ok(StepView::Text(raw)),
        Some(file) => if file.format != FORMAT@ {
            Ok(StepView::Text(raw))
        } else if file.version != VERSION {
            Err(ErrorView::UnsupportedVersion(file.version))
        } else if !is_supported(file.protection) {
            Err(ErrorView::UnsupportedProtection(file.protection))
        } else {
            match payload_bytes(file.payload) {
                Err(error) => Err(error),
                Ok(bytes) => if is_dpapi(file.protection) {
                    Ok(StepView::Dpapi(bytes))
                } else {
                    Ok(StepView::Software(bytes))
                },
            }
        },
    }
}

/// The text that unprotected bytes hold.
pub open spec fn plain_outcome(plain: Result<Seq<u8>, ErrorView>) -> Result<Seq<char>, ErrorView> {
    match plain {
        Err(error) => Err(error),
        Ok(bytes) => if valid_utf8(bytes) {
            Ok(decode_utf8(bytes))
        } else {
            Err(ErrorView::InvalidUtf8(utf8_complaint(bytes)))
        },
    }
}

/// What a host without Windows' data protection reads from a file with the text `raw`.
pub open spec fn read_outcome(
    host: HostView,
    raw: Seq<char>,
    file: Option<EnvelopeView>,
) -> Result<Seq<char>, ErrorView> {
    match read_step(raw, file) {
        Err(error) => Err(error),
        Ok(StepView::Text(text)) => Ok(text),
        Ok(StepView::Dpapi(_)) => Err(ErrorView::DpapiUnavailable),
        Ok(StepView::Software(payload)) => plain_outcome(unsealing(host, payload)),
    }
}

/// The protected bytes of an envelope.
fn decode_payload(payload: &str) -> (result: Result<Vec<u8>, SecureFileError>)
    ensures
        bytes_outcome(result) == payload_bytes(payload@),
{
    match decode_base64(payload) {
        Ok(bytes) => {
            proof {
                lemma_base64_round_trip(bytes@);
            }
            Ok(bytes)
        },
        Err(complaint) => Err(SecureFileError::InvalidBase64(complaint)),
    }
}

/// What is left to do for the text of a file: `raw` is what the file holds, and `file` the envelope
/// that it parses as, if it does.
pub fn next_read_step(raw: String, file: Option<ProtectedFile>) -> (step: Result<
    ReadStep,
    SecureFileError,
>)
    ensures
        match step {
            Ok(step) => read_step(raw@, envelope_view(file)) == Ok::<_, ErrorView>(step@),
            Err(error) => read_step(raw@, envelope_view(file)) == Err::<StepView, _>(error@),
        },
{
    let file = match file {
        None => return Ok(ReadStep::Text(raw)),
        Some(file) => file,
    };
    if !same_text(&file.format, FORMAT) {
        return Ok(ReadStep::Text(raw));
    }
    if file.version != VERSION {
        return Err(SecureFileError::UnsupportedVersion(file.version));
    }
    if same_text(&file.protection, WINDOWS_DPAPI_USER) || same_text(
        &file.protection,
        WINDOWS_DPAPI_MACHINE,
    ) {
        match decode_payload(&file.payload) {
            Ok(encrypted) => Ok(ReadStep::Dpapi(encrypted)),
            Err(error) => Err(error),
        }
    } else if same_text(&file.protection, SOFTWARE_AES256_GCM) {
        match decode_payload(&file.payload) {
            Ok(encrypted) => Ok(ReadStep::Software(encrypted)),
            Err(error) => Err(error),
        }
    } else {
        Err(SecureFileError::UnsupportedProtection(file.protection))
    }
}

/// The text that unprotected bytes hold.
pub fn plain_text(plain: Vec<u8>) -> (result: Result<String, SecureFileError>)
    ensures
        text_outcome(result) == plain_outcome(Ok(plain@)),
{
    match text_of_utf8(plain) {
        Ok(text) => Ok(text),
        Err(complaint) => Err(SecureFileError::InvalidUtf8(complaint)),
    }
}

/// The text of a file, on a host without Windows' data protection: `raw` is what the file holds,
/// and `file` the envelope that it parses as, if it does. Text in no envelope is handed back as it
/// is.
pub fn read_string(host: &HostIdentity, raw: String, file: Option<ProtectedFile>) -> (result: Result<
    String,
    SecureFileError,
>)
    ensures
        text_outcome(result) == read_outcome(host@, raw@, envelope_view(file)),
{
    let plain = match next_read_step(raw, file) {
        Err(error) => return Err(error),
        Ok(ReadStep::Text(text)) => return Ok(text),
        Ok(ReadStep::Dpapi(encrypted)) => unprotect(encrypted.as_slice()),
        Ok(ReadStep::Software(payload)) => unprotect_software(host, payload.as_slice()),
    };
    match plain {
        Ok(plain) => plain_text(plain),
        Err(error) => Err(error),
    }
}

/// The text of a file that Windows protects, from what Windows made of the protected bytes.
pub fn read_string_dpapi(reply: DpapiReply) -> (result: Result<String, SecureFileError>)
    ensures
        text_outcome(result) == plain_outcome(reply_outcome(DpapiCall::Unprotect, reply)),
{
    match dpapi_bytes(DpapiCall::Unprotect, reply) {
        Ok(plain) => plain_text(plain),
        Err(error) => Err(error),
    }
}

/// The envelope around protected bytes.
pub open spec fn envelope(protection: Seq<char>, encrypted: Seq<u8>) -> EnvelopeView {
    EnvelopeView {
        format: FORMAT@,
        version: VERSION,
        protection,
        payload: base64_text(encrypted),
    }
}

/// The result of making an envelope, with its parts as sequences.
pub open spec fn envelope_outcome(result: Result<ProtectedFile, SecureFileError>) -> Result<
    EnvelopeView,
    ErrorView,
> {
    match result {
        Ok(file) => Ok(file@),
        Err(error) => Err(error@),
    }
}

/// What is written for the text `contents`, for a salt and a nonce.
pub open spec fn write_outcome(
    host: HostView,
    salt: Seq<u8>,
    nonce: Seq<u8>,
    contents: Seq<char>,
) -> Result<EnvelopeView, ErrorView> {
    match sealing(host, salt, nonce, encode_utf8(contents)) {
        Ok(payload) => Ok(envelope(SOFTWARE_AES256_GCM@, payload)),
        Err(error) => Err(error),
    }
}

/// What is written where Windows protects the text.
pub open spec fn write_dpapi_outcome(reply: DpapiReply) -> Result<EnvelopeView, ErrorView> {
    match user_scope_outcome(reply) {
        Ok((protection, encrypted)) => Ok(envelope(protection, encrypted)),
        Err(error) => Err(error),
    }
}

/// Whether the envelope around a text of so many bytes fits into memory.
pub open spec fn writable(len: nat) -> bool {
    encodable(len + 44)
}

/// Whether the envelope around a text of `len` bytes fits into memory.
pub fn is_writable(len: usize) -> (fits: bool)
    ensures
        fits == writable(len as nat),
{
    len <= usize::MAX - 44 && is_encodable(len + 44)
}

/// The envelope around protected bytes.
fn protected_file(protection: &str, encrypted: &[u8]) -> (file: ProtectedFile)
    requires
        encodable(encrypted@.len()),
    ensures
        file@ == envelope(protection@, encrypted@),
{
    ProtectedFile {
        format: FORMAT.to_owned(),
        version: VERSION,
        protection: protection.to_owned(),
        payload: encode_base64(encrypted),
    }
}

/// What is written for the text `contents` under a given salt and nonce. The same host reads
/// `contents` back from it.
pub fn write_string_with(
    host: &HostIdentity,
    salt: &[u8; 16],
    nonce: &[u8; 12],
    contents: &str,
) -> (result: Result<ProtectedFile, SecureFileError>)
    requires
        writable(encode_utf8(contents@).len()),
    ensures
        envelope_outcome(result) == write_outcome(host@, salt@, nonce@, contents@),
        result matches Ok(file) ==> forall|raw: Seq<char>| #[trigger]
            read_outcome(host@, raw, Some(file@)) == Ok::<_, ErrorView>(contents@),
        result matches Ok(file) ==> (base64_bytes(file@.payload) matches Some(bytes) && bytes.len()
            == encode_utf8(contents@).len() + 44),
{
    match protect_software_with(host, salt, nonce, contents.as_bytes()) {
        Ok(payload) => {
            proof {
                lemma_software_round_trip(host@, payload@, contents@);
                lemma_base64_round_trip(payload@);
            }
            Ok(protected_file(SOFTWARE_AES256_GCM, payload.as_slice()))
        },
        Err(error) => Err(error),
    }
}

/// What is written for the text `contents`, on a host without Windows' data protection. The same
/// host reads `contents` back from it.
pub fn write_string(host: &HostIdentity, contents: &str) -> (result: Result<
    ProtectedFile,
    SecureFileError,
>)
    requires
        writable(encode_utf8(contents@).len()),
    ensures
        exists|salt: Seq<u8>, nonce: Seq<u8>|
            salt.len() == 16 && nonce.len() == 12 && envelope_outcome(result)
                == #[trigger] write_outcome(host@, salt, nonce, contents@),
        result matches Ok(file) ==> forall|raw: Seq<char>| #[trigger]
            read_outcome(host@, raw, Some(file@)) == Ok::<_, ErrorView>(contents@),
        result matches Ok(file) ==> (base64_bytes(file@.payload) matches Some(bytes) && bytes.len()
            == encode_utf8(contents@).len() + 44),
{
    let sealed = protect_software(host, contents.as_bytes());
    let ghost plain = encode_utf8(contents@);
    let ghost (salt, nonce) = choose|salt: Seq<u8>, nonce: Seq<u8>|
        salt.len() == 16 && nonce.len() == 12 && bytes_outcome(sealed) == #[trigger] sealing(
            host@,
            salt,
            nonce,
            plain,
        );
    let result = match sealed {
        Ok(payload) => {
            proof {
                lemma_software_round_trip(host@, payload@, contents@);
                lemma_base64_round_trip(payload@);
            }
            Ok(protected_file(SOFTWARE_AES256_GCM, payload.as_slice()))
        },
        Err(error) => Err(error),
    };
    assert(envelope_outcome(result) == write_outcome(host@, salt, nonce, contents@));
    result
}

/// What is written where Windows protects the text.
pub fn write_string_dpapi(reply: DpapiReply) -> (result: Result<ProtectedFile, SecureFileError>)
    requires
        reply matches DpapiReply::Output(bytes) ==> encodable(bytes@.len()),
    ensures
        envelope_outcome(result) == write_dpapi_outcome(reply),
{
    match protect(reply) {
        Ok((protection, encrypted)) => Ok(protected_file(protection, encrypted.as_slice())),
        Err(error) => Err(error),
    }
}

/// The protection by the host's own key is none of those by Windows.
pub proof fn lemma_software_is_not_dpapi()
    ensures
        !is_dpapi(SOFTWARE_AES256_GCM@),
{
    reveal_strlit("software-aes256gcm-v1");
    reveal_strlit("windows-dpapi-user");
    reveal_strlit("windows-dpapi-machine");
    assert(SOFTWARE_AES256_GCM@[0] == 's');
    assert(WINDOWS_DPAPI_USER@[0] == 'w');
    assert(WINDOWS_DPAPI_MACHINE@[0] == 'w');
}

/// A payload that gives back the bytes of a text, in an envelope, gives back the text.
proof fn lemma_software_round_trip(host: HostView, payload: Seq<u8>, contents: Seq<char>)
    requires
        unsealing(host, payload) == Ok::<_, ErrorView>(encode_utf8(contents)),
    ensures
        forall|raw: Seq<char>| #[trigger]
            read_outcome(host, raw, Some(envelope(SOFTWARE_AES256_GCM@, payload))) == Ok::<
                _,
                ErrorView,
            >(contents),
{
    broadcast use vstd::utf8::encode_utf8_valid_utf8, vstd::utf8::encode_utf8_decode_utf8;

    lemma_base64_round_trip(payload);
    lemma_software_is_not_dpapi();
}

} // verus!

//! What can go wrong with a protected file.

use vstd::prelude::*;
use crate::text::{decimal_text, joined};

verus! {

/// The broad class of an error, as the standard library's I/O errors have it.
#[derive(Debug, Clone, Copy, PartialEq, Eq, Structural)]
pub enum ErrorKind {
    InvalidData,
    Unsupported,
    PermissionDenied,
    Other,
}

/// The two functions of Windows' data protection interface.
#[derive(Debug, Clone, Copy, PartialEq, Eq, Structural)]
pub enum DpapiCall {
    Protect,
    Unprotect,
}

/// Why a protected file could not be read or written.
#[derive(Debug, PartialEq, Eq)]
pub enum SecureFileError {
    /// The envelope has a version that is not understood.
    UnsupportedVersion(u32),
    /// The envelope names a protection that is not understood.
    UnsupportedProtection(String),
    /// The payload is not base64, with what the decoder says of it.
    InvalidBase64(String),
    /// The protected bytes are not UTF-8, with what the decoder says of them.
    InvalidUtf8(String),
    /// The payload has no room for salt and nonce.
    PayloadTooShort,
    /// The cipher refused to encrypt.
    EncryptFailed(String),
    /// The cipher refused to decrypt: a wrong key, or a payload that was tampered with.
    DecryptFailed(String),
    /// The host has nothing to derive a key from.
    NoHostIdentity,
    /// Windows' data protection is not available on this system.
    DpapiUnavailable,
    /// Windows' data protection reported a failure.
    DpapiFailed(DpapiCall, String),
    /// Windows' data protection reported success and gave nothing back.
    DpapiNullOutput(DpapiCall),
    /// Windows' data protection failed for the current user.
    UserScopeFailed(String),
    /// The file is a symbolic link.
    Symlink,
    /// The file lies outside the configuration directory.
    OutsideConfigDir,
}

/// A [`SecureFileError`] with its texts as sequences of characters.
pub enum ErrorView {
    UnsupportedVersion(u32),
    UnsupportedProtection(Seq<char>),
    InvalidBase64(Seq<char>),
    InvalidUtf8(Seq<char>),
    PayloadTooShort,
    EncryptFailed(Seq<char>),
    DecryptFailed(Seq<char>),
    NoHostIdentity,
    DpapiUnavailable,
    DpapiFailed(DpapiCall, Seq<char>),
    DpapiNullOutput(DpapiCall),
    UserScopeFailed(Seq<char>),
    Symlink,
    OutsideConfigDir,
}

impl View for SecureFileError {
    type V = ErrorView;

    open spec fn view(&self) -> ErrorView {
        match self {
            SecureFileError::UnsupportedVersion(version) => ErrorView::UnsupportedVersion(*version),
            SecureFileError::UnsupportedProtection(name) => ErrorView::UnsupportedProtection(name@),
            SecureFileError::InvalidBase64(text) => ErrorView::InvalidBase64(text@),
            SecureFileError::InvalidUtf8(text) => ErrorView::InvalidUtf8(text@),
            SecureFileError::PayloadTooShort => ErrorView::PayloadTooShort,
            SecureFileError::EncryptFailed(text) => ErrorView::EncryptFailed(text@),
            SecureFileError::DecryptFailed(text) => ErrorView::DecryptFailed(text@),
            SecureFileError::NoHostIdentity => ErrorView::NoHostIdentity,
            SecureFileError::DpapiUnavailable => ErrorView::DpapiUnavailable,
            SecureFileError::DpapiFailed(call, text) => ErrorView::DpapiFailed(*call, text@),
            SecureFileError::DpapiNullOutput(call) => ErrorView::DpapiNullOutput(*call),
            SecureFileError::UserScopeFailed(text) => ErrorView::UserScopeFailed(text@),
            SecureFileError::Symlink => ErrorView::Symlink,
            SecureFileError::OutsideConfigDir => ErrorView::OutsideConfigDir,
        }
    }
}

/// The result of an operation on bytes, with its parts as sequences.
pub open spec fn bytes_outcome(result: Result<Vec<u8>, SecureFileError>) -> Result<
    Seq<u8>,
    ErrorView,
> {
    match result {
        Ok(bytes) => Ok(bytes@),
        Err(error) => Err(error@),
    }
}

/// The result of an operation on text, with its parts as sequences.
pub open spec fn text_outcome(result: Result<String, SecureFileError>) -> Result<
    Seq<char>,
    ErrorView,
> {
    match result {
        Ok(text) => Ok(text@),
        Err(error) => Err(error@),
    }
}

/// The name of a function of Windows' data protection interface.
pub open spec fn dpapi_name(call: DpapiCall) -> Seq<char> {
    match call {
        DpapiCall::Protect => "CryptProtectData"@,
        DpapiCall::Unprotect => "CryptUnprotectData"@,
    }
}

/// The class of an error.
pub open spec fn error_kind(error: ErrorView) -> ErrorKind {
    match error {
        ErrorView::UnsupportedVersion(_)
        | ErrorView::UnsupportedProtection(_)
        | ErrorView::InvalidBase64(_)
        | ErrorView::InvalidUtf8(_)
        | ErrorView::PayloadTooShort
        | ErrorView::DecryptFailed(_) => ErrorKind::InvalidData,
        ErrorView::DpapiUnavailable => ErrorKind::Unsupported,
        ErrorView::Symlink | ErrorView::OutsideConfigDir => ErrorKind::PermissionDenied,
        ErrorView::EncryptFailed(_)
        | ErrorView::NoHostIdentity
        | ErrorView::DpapiFailed(_, _)
        | ErrorView::DpapiNullOutput(_)
        | ErrorView::UserScopeFailed(_) => ErrorKind::Other,
    }
}

/// The text that tells a user of an error.
pub open spec fn error_message(error: ErrorView) -> Seq<char> {
    match error {
        ErrorView::UnsupportedVersion(version) => "unsupported secure file version "@
            + crate::text::decimal(version as nat),
        ErrorView::UnsupportedProtection(name) => "unsupported secure file protection "@ + name,
        ErrorView::InvalidBase64(text) => text,
        ErrorView::InvalidUtf8(text) => text,
        ErrorView::PayloadTooShort => "software encrypted payload is too short"@,
        ErrorView::EncryptFailed(text) => "encrypt failed: "@ + text,
        ErrorView::DecryptFailed(text) => "decrypt failed: "@ + text,
        ErrorView::NoHostIdentity =>
            "unable to derive non-Windows secure-file key material from host identity"@,
        ErrorView::DpapiUnavailable =>
            "Windows DPAPI-protected files can only be read on Windows by the same user"@,
        ErrorView::DpapiFailed(call, text) => dpapi_name(call) + " failed: "@ + text,
        ErrorView::DpapiNullOutput(call) => dpapi_name(call) + " returned null output"@,
        ErrorView::UserScopeFailed(text) => "CryptProtectData failed in user scope ("@ + text
            + "); machine-scope fallback is disabled"@,
        ErrorView::Symlink => "secure file path must not be a symlink"@,
        ErrorView::OutsideConfigDir =>
            "secure file must be under the CodexBar config directory"@,
    }
}

impl DpapiCall {
    /// The name of the function.
    pub fn name(&self) -> (name: &'static str)
        ensures
            name@ == dpapi_name(*self),
    {
        match self {
            DpapiCall::Protect => "CryptProtectData",
            DpapiCall::Unprotect => "CryptUnprotectData",
        }
    }
}

impl SecureFileError {
    /// The class of this error.
    pub fn kind(&self) -> (kind: ErrorKind)
        ensures
            kind == error_kind(self@),
    {
        match self {
            SecureFileError::UnsupportedVersion(_)
            | SecureFileError::UnsupportedProtection(_)
            | SecureFileError::InvalidBase64(_)
            | SecureFileError::InvalidUtf8(_)
            | SecureFileError::PayloadTooShort
            | SecureFileError::DecryptFailed(_) => ErrorKind::InvalidData,
            SecureFileError::DpapiUnavailable => ErrorKind::Unsupported,
            SecureFileError::Symlink | SecureFileError::OutsideConfigDir =>
                ErrorKind::PermissionDenied,
            SecureFileError::EncryptFailed(_)
            | SecureFileError::NoHostIdentity
            | SecureFileError::DpapiFailed(_, _)
            | SecureFileError::DpapiNullOutput(_)
            | SecureFileError::UserScopeFailed(_) => ErrorKind::Other,
        }
    }

    /// The text that tells a user of this error.
    pub fn message(&self) -> (message: String)
        ensures
            message@ == error_message(self@),
    {
        match self {
            SecureFileError::UnsupportedVersion(version) => joined(
                "unsupported secure file version ",
                &decimal_text(*version as u64),
            ),
            SecureFileError::UnsupportedProtection(name) => joined(
                "unsupported secure file protection ",
                name,
            ),
            SecureFileError::InvalidBase64(text) => text.clone(),
            SecureFileError::InvalidUtf8(text) => text.clone(),
            SecureFileError::PayloadTooShort =>
                "software encrypted payload is too short".to_owned(),
            SecureFileError::EncryptFailed(text) => joined("encrypt failed: ", text),
            SecureFileError::DecryptFailed(text) => joined("decrypt failed: ", text),
            SecureFileError::NoHostIdentity =>
                "unable to derive non-Windows secure-file key material from host identity".to_owned(),
            SecureFileError::DpapiUnavailable =>
                "Windows DPAPI-protected files can only be read on Windows by the same user".to_owned(),
            SecureFileError::DpapiFailed(call, text) => joined(
                &joined(call.name(), " failed: "),
                text,
            ),
            SecureFileError::DpapiNullOutput(call) => joined(call.name(), " returned null output"),
            SecureFileError::UserScopeFailed(text) => joined(
                &joined("CryptProtectData failed in user scope (", text),
                "); machine-scope fallback is disabled",
            ),
            SecureFileError::Symlink => "secure file path must not be a symlink".to_owned(),
            SecureFileError::OutsideConfigDir =>
                "secure file must be under the CodexBar config directory".to_owned(),
        }
    }
}

} // verus!

//! What holds of errors.

use vstd::prelude::*;
use crate::error::{bytes_outcome, text_outcome, DpapiCall, ErrorKind, ErrorView};
use crate::error::SecureFileError;
use crate::text::decimal;

verus! {

/// An error's kind says whose fault it is: the data's where the file does not hold what it should,
/// the caller's where the place of the file is not allowed, the system's where it lacks Windows'
/// data protection, and nobody's in particular for every failure of the host.
pub proof fn law_kinds(error: SecureFileError, kind: ErrorKind)
    requires
        call_ensures(SecureFileError::kind, (&error,), kind),
    ensures
        kind == ErrorKind::InvalidData <==> error is UnsupportedVersion
            || error is UnsupportedProtection || error is InvalidBase64 || error is InvalidUtf8
            || error is PayloadTooShort || error is DecryptFailed,
        kind == ErrorKind::PermissionDenied <==> error is Symlink || error is OutsideConfigDir,
        kind == ErrorKind::Unsupported <==> error is DpapiUnavailable,
        kind == ErrorKind::Other <==> error is EncryptFailed || error is NoHostIdentity
            || error is DpapiFailed || error is DpapiNullOutput || error is UserScopeFailed,
{
}

/// The message of an error holds what the error holds, after words that say what it is.
pub proof fn law_messages(error: SecureFileError, message: String)
    requires
        call_ensures(SecureFileError::message, (&error,), message),
    ensures
        error matches SecureFileError::UnsupportedVersion(version) ==> message@
            == "unsupported secure file version "@ + decimal(version as nat),
        error matches SecureFileError::UnsupportedProtection(name) ==> message@
            == "unsupported secure file protection "@ + name@,
        error matches SecureFileError::InvalidBase64(text) ==> message@ == text@,
        error matches SecureFileError::InvalidUtf8(text) ==> message@ == text@,
        error is PayloadTooShort ==> message@ == "software encrypted payload is too short"@,
        error matches SecureFileError::EncryptFailed(text) ==> message@ == "encrypt failed: "@
            + text@,
        error matches SecureFileError::DecryptFailed(text) ==> message@ == "decrypt failed: "@
            + text@,
        error is NoHostIdentity ==> message@
            == "unable to derive non-Windows secure-file key material from host identity"@,
        error is DpapiUnavailable ==> message@
            == "Windows DPAPI-protected files can only be read on Windows by the same user"@,
        error matches SecureFileError::DpapiFailed(DpapiCall::Protect, text) ==> message@
            == "CryptProtectData"@ + " failed: "@ + text@,
        error matches SecureFileError::DpapiFailed(DpapiCall::Unprotect, text) ==> message@
            == "CryptUnprotectData"@ + " failed: "@ + text@,
        error matches SecureFileError::DpapiNullOutput(DpapiCall::Protect) ==> message@
            == "CryptProtectData"@ + " returned null output"@,
        error matches SecureFileError::DpapiNullOutput(DpapiCall::Unprotect) ==> message@
            == "CryptUnprotectData"@ + " returned null output"@,
        error matches SecureFileError::UserScopeFailed(text) ==> message@
            == "CryptProtectData failed in user scope ("@ + text@
            + "); machine-scope fallback is disabled"@,
        error is Symlink ==> message@ == "secure file path must not be a symlink"@,
        error is OutsideConfigDir ==> message@
            == "secure file must be under the CodexBar config directory"@,
{
}

/// The names of the two functions of Windows' data protection interface.
pub proof fn law_dpapi_names(call: DpapiCall, name: &'static str)
    requires
        call_ensures(DpapiCall::name, (&call,), name),
    ensures
        name@ == "CryptProtectData"@ <==> call == DpapiCall::Protect,
        name@ == "CryptUnprotectData"@ <==> call == DpapiCall::Unprotect,
{
    reveal_strlit("CryptProtectData");
    reveal_strlit("CryptUnprotectData");
    assert("CryptProtectData"@.len() != "CryptUnprotectData"@.len());
}

/// Two errors that look the same are of the same sort and hold the same.
pub proof fn law_errors_are_told_apart(a: SecureFileError, b: SecureFileError)
    requires
        a@ == b@,
    ensures
        match (a, b) {
            (SecureFileError::UnsupportedVersion(x), SecureFileError::UnsupportedVersion(y)) => x
                == y,
            (
                SecureFileError::UnsupportedProtection(x),
                SecureFileError::UnsupportedProtection(y),
            ) => x@ == y@,
            (SecureFileError::InvalidBase64(x), SecureFileError::InvalidBase64(y)) => x@ == y@,
            (SecureFileError::InvalidUtf8(x), SecureFileError::InvalidUtf8(y)) => x@ == y@,
            (SecureFileError::PayloadTooShort, SecureFileError::PayloadTooShort) => true,
            (SecureFileError::EncryptFailed(x), SecureFileError::EncryptFailed(y)) => x@ == y@,
            (SecureFileError::DecryptFailed(x), SecureFileError::DecryptFailed(y)) => x@ == y@,
            (SecureFileError::NoHostIdentity, SecureFileError::NoHostIdentity) => true,
            (SecureFileError::DpapiUnavailable, SecureFileError::DpapiUnavailable) => true,
            (SecureFileError::DpapiFailed(c, x), SecureFileError::DpapiFailed(d, y)) => c == d && x@
                == y@,
            (SecureFileError::DpapiNullOutput(c), SecureFileError::DpapiNullOutput(d)) => c == d,
            (SecureFileError::UserScopeFailed(x), SecureFileError::UserScopeFailed(y)) => x@ == y@,
            (SecureFileError::Symlink, SecureFileError::Symlink) => true,
            (SecureFileError::OutsideConfigDir, SecureFileError::OutsideConfigDir) => true,
            _ => false,
        },
{
}

/// The outcome of an operation is a success exactly where the operation succeeded, and holds what
/// it gave, be it bytes, text or an error.
pub proof fn law_outcomes(
    bytes: Result<Vec<u8>, SecureFileError>,
    text: Result<String, SecureFileError>,
)
    ensures
        bytes matches Ok(bytes_given) ==> bytes_outcome(bytes) == Ok::<_, ErrorView>(bytes_given@),
        bytes matches Err(error) ==> bytes_outcome(bytes) == Err::<Seq<u8>, _>(error@),
        text matches Ok(text_given) ==> text_outcome(text) == Ok::<_, ErrorView>(text_given@),
        text matches Err(error) ==> text_outcome(text) == Err::<Seq<char>, _>(error@),
{
}

} // verus!

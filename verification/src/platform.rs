//! What the operating system has to do with a protected file: Windows' data protection interface,
//! and who may open the file.

use vstd::prelude::*;
use crate::envelope::WINDOWS_DPAPI_USER;
use crate::error::{bytes_outcome, error_message, DpapiCall, ErrorView, SecureFileError};

verus! {

/// The permission bits of a protected file on Unix: the owner may read and write it, and nobody
/// else may open it.
pub const OWNER_ONLY_MODE: u32 = 0o600;

/// What a call of Windows' data protection interface came to.
#[derive(Debug)]
pub enum DpapiReply {
    /// The call failed, for this reason.
    Failed(String),
    /// The call succeeded and gave no output.
    Null,
    /// The call succeeded with this output.
    Output(Vec<u8>),
}

/// What is known of a file that was just written.
#[derive(Debug, Clone, Copy, PartialEq, Eq, Structural)]
pub enum WrittenFile {
    /// On Unix, permission bits guard it.
    Unix,
    /// On Windows, its place guards it.
    Windows {
        /// Whether the path is a symbolic link.
        is_symlink: bool,
        /// Whether the file lies under the configuration directory, where both have a place that
        /// can be told.
        in_config_dir: Option<bool>,
    },
    /// Elsewhere nothing guards it.
    Elsewhere,
}

/// The bytes that a call came to, or its error.
pub open spec fn reply_outcome(call: DpapiCall, reply: DpapiReply) -> Result<Seq<u8>, ErrorView> {
    match reply {
        DpapiReply::Failed(reason) => Err(ErrorView::DpapiFailed(call, reason@)),
        DpapiReply::Null => Err(ErrorView::DpapiNullOutput(call)),
        DpapiReply::Output(bytes) => Ok(bytes@),
    }
}

/// What protecting bytes for the current user came to: the name of the protection, and the
/// protected bytes. A failure is final: the wider protection for the whole machine never takes the
/// place of the user's.
pub open spec fn user_scope_outcome(reply: DpapiReply) -> Result<(Seq<char>, Seq<u8>), ErrorView> {
    match reply_outcome(DpapiCall::Protect, reply) {
        Ok(bytes) => Ok((WINDOWS_DPAPI_USER@, bytes)),
        Err(error) => Err(ErrorView::UserScopeFailed(error_message(error))),
    }
}

/// The length of a sequence of bytes as Windows' data protection interface takes it, in 32 bits.
pub fn blob_length(bytes: &[u8]) -> (length: u32)
    ensures
        length as int == bytes@.len() as int % 0x1_0000_0000,
{
    let len: u64 = bytes.len() as u64;
    assert(len as u32 == len % 0x1_0000_0000) by (bit_vector);
    #[verifier::truncate] (len as u32)
}

/// The bytes that a call of Windows' data protection interface came to.
pub fn dpapi_bytes(call: DpapiCall, reply: DpapiReply) -> (result: Result<
    Vec<u8>,
    SecureFileError,
>)
    ensures
        bytes_outcome(result) == reply_outcome(call, reply),
{
    match reply {
        DpapiReply::Failed(reason) => Err(SecureFileError::DpapiFailed(call, reason)),
        DpapiReply::Null => Err(SecureFileError::DpapiNullOutput(call)),
        DpapiReply::Output(bytes) => Ok(bytes),
    }
}

/// The protection that Windows gave for the current user, and the protected bytes.
pub fn protect(reply: DpapiReply) -> (result: Result<(&'static str, Vec<u8>), SecureFileError>)
    ensures
        match result {
            Ok((protection, bytes)) => user_scope_outcome(reply) == Ok::<_, ErrorView>(
                (protection@, bytes@),
            ),
            Err(error) => user_scope_outcome(reply) == Err::<(Seq<char>, Seq<u8>), _>(error@),
        },
{
    match dpapi_bytes(DpapiCall::Protect, reply) {
        Ok(bytes) => Ok((WINDOWS_DPAPI_USER, bytes)),
        Err(error) => Err(SecureFileError::UserScopeFailed(error.message())),
    }
}

/// What a system without Windows' data protection makes of bytes that it protects: an error,
/// whatever they are.
pub fn unprotect(_encrypted: &[u8]) -> (result: Result<Vec<u8>, SecureFileError>)
    ensures
        bytes_outcome(result) == Err::<Seq<u8>, _>(ErrorView::DpapiUnavailable),
{
    Err(SecureFileError::DpapiUnavailable)
}

/// What has to be done so that nobody but the owner opens a file: the permission bits to set,
/// where the system has such, or nothing. On Windows, a file in an unexpected place is an error.
pub fn restrict_file_permissions(file: WrittenFile) -> (result: Result<
    Option<u32>,
    SecureFileError,
>)
    ensures
        match file {
            WrittenFile::Unix => result == Ok::<_, SecureFileError>(Some(OWNER_ONLY_MODE)),
            WrittenFile::Windows { is_symlink: true, .. } => {
                result == Err::<Option<u32>, _>(SecureFileError::Symlink)
            },
            WrittenFile::Windows { is_symlink: false, in_config_dir: Some(false) } => {
                result == Err::<Option<u32>, _>(SecureFileError::OutsideConfigDir)
            },
            _ => result == Ok::<Option<u32>, SecureFileError>(None),
        },
{
    match file {
        WrittenFile::Unix => Ok(Some(OWNER_ONLY_MODE)),
        WrittenFile::Windows { is_symlink, in_config_dir } => {
            if is_symlink {
                return Err(SecureFileError::Symlink);
            }
            match in_config_dir {
                Some(false) => Err(SecureFileError::OutsideConfigDir),
                _ => Ok(None),
            }
        },
        WrittenFile::Elsewhere => Ok(None),
    }
}

} // verus!

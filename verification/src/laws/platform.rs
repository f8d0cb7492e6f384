//! What holds of what the operating system does for a file.

use vstd::prelude::*;
use crate::error::{DpapiCall, SecureFileError};
use crate::platform::{blob_length, dpapi_bytes, protect, restrict_file_permissions, unprotect};
use crate::platform::{DpapiReply, WrittenFile};

verus! {

/// What a call of Windows' data protection interface came to is what the call gave: its output byte
/// for byte, and its failure with the reason and the name of the call.
pub proof fn law_replies(
    call: DpapiCall,
    reply: DpapiReply,
    result: Result<Vec<u8>, SecureFileError>,
)
    requires
        call_ensures(dpapi_bytes, (call, reply), result),
    ensures
        result is Ok <==> reply is Output,
        reply matches DpapiReply::Output(output) ==> (result matches Ok(bytes) && bytes@
            == output@),
        reply matches DpapiReply::Failed(reason) ==> (result matches Err(
            SecureFileError::DpapiFailed(failed, text),
        ) && failed == call && text@ == reason@),
        reply is Null ==> (result matches Err(SecureFileError::DpapiNullOutput(failed)) && failed
            == call),
{
}

/// Windows protects for the current user, or it is an error that says so: the reason is the one that
/// the call gave.
pub proof fn law_protection_is_for_the_user(
    reply: DpapiReply,
    result: Result<(&'static str, Vec<u8>), SecureFileError>,
)
    requires
        call_ensures(protect, (reply,), result),
    ensures
        result is Ok <==> reply is Output,
        reply matches DpapiReply::Output(output) ==> (result matches Ok((protection, bytes))
            && protection@ == "windows-dpapi-user"@ && bytes@ == output@),
        reply matches DpapiReply::Failed(reason) ==> (result matches Err(
            SecureFileError::UserScopeFailed(text),
        ) && text@ == "CryptProtectData"@ + " failed: "@ + reason@),
        reply is Null ==> (result matches Err(SecureFileError::UserScopeFailed(text)) && text@
            == "CryptProtectData"@ + " returned null output"@),
{
}

/// Without Windows' data protection nothing that it protects can be had, whatever the bytes are.
pub proof fn law_nothing_without_windows(
    encrypted: &[u8],
    result: Result<Vec<u8>, SecureFileError>,
)
    requires
        call_ensures(unprotect, (encrypted,), result),
    ensures
        result matches Err(error) && error is DpapiUnavailable,
{
}

/// On Unix the owner may read and write the file, and neither the group nor anybody else may do
/// anything with it. On Windows the file must not be a symbolic link, and must not be known to lie
/// elsewhere than under the configuration directory; nothing else is refused.
pub proof fn law_who_may_open_the_file(
    file: WrittenFile,
    result: Result<Option<u32>, SecureFileError>,
)
    requires
        call_ensures(restrict_file_permissions, (file,), result),
    ensures
        file is Unix ==> (result matches Ok(Some(mode)) && mode == 6 * 64 + 0 * 8 + 0),
        !(file is Unix) ==> !(result matches Ok(Some(_))),
        result is Err <==> (file matches WrittenFile::Windows { is_symlink, in_config_dir } && (
        is_symlink || in_config_dir == Some(false))),
        result matches Err(error) ==> (file matches WrittenFile::Windows { is_symlink, .. }
            && if is_symlink {
            error is Symlink
        } else {
            error is OutsideConfigDir
        }),
{
}

/// A length is handed to Windows as it is where 32 bits hold it, and else without the bits above.
pub proof fn law_blob_length(bytes: &[u8], length: u32)
    requires
        call_ensures(blob_length, (bytes,), length),
    ensures
        bytes@.len() <= u32::MAX ==> length == bytes@.len(),
        exists|high: int| bytes@.len() == #[trigger] (high * 0x1_0000_0000) + length,
{
    let len = bytes@.len() as int;
    assert(len == (len / 0x1_0000_0000) * 0x1_0000_0000 + length);
}

} // verus!

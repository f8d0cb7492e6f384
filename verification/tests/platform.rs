//! Windows' data protection, and who may open a file.

use secure_file::error::{DpapiCall, ErrorKind, SecureFileError};
use secure_file::platform::{
    blob_length, dpapi_bytes, protect, restrict_file_permissions, unprotect, DpapiReply,
    WrittenFile, OWNER_ONLY_MODE,
};

#[test]
fn unprotecting_needs_windows() {
    assert_eq!(unprotect(&[1, 2, 3]), Err(SecureFileError::DpapiUnavailable));
    assert_eq!(unprotect(&[]), Err(SecureFileError::DpapiUnavailable));
}

#[test]
fn replies_become_bytes_or_errors() {
    assert_eq!(
        dpapi_bytes(DpapiCall::Unprotect, DpapiReply::Output(vec![1, 2])).unwrap(),
        vec![1, 2]
    );
    let failed = dpapi_bytes(DpapiCall::Unprotect, DpapiReply::Failed("E7".to_string()));
    let error = failed.unwrap_err();
    assert_eq!(error.kind(), ErrorKind::Other);
    assert_eq!(error.message(), "CryptUnprotectData failed: E7");
    let null = dpapi_bytes(DpapiCall::Unprotect, DpapiReply::Null).unwrap_err();
    assert_eq!(null.kind(), ErrorKind::Other);
    assert_eq!(null.message(), "CryptUnprotectData returned null output");
    let null = dpapi_bytes(DpapiCall::Protect, DpapiReply::Null).unwrap_err();
    assert_eq!(null.message(), "CryptProtectData returned null output");
}

#[test]
fn protection_is_for_the_user() {
    assert_eq!(
        protect(DpapiReply::Output(vec![9])).unwrap(),
        ("windows-dpapi-user", vec![9])
    );
    assert!(protect(DpapiReply::Null).is_err());
}

#[test]
fn blob_length_counts_bytes() {
    assert_eq!(blob_length(&[]), 0);
    assert_eq!(blob_length(&[0; 300]), 300);
}

#[test]
fn unix_files_are_for_the_owner() {
    assert_eq!(OWNER_ONLY_MODE, 0o600);
    assert_eq!(restrict_file_permissions(WrittenFile::Unix), Ok(Some(0o600)));
    assert_eq!(restrict_file_permissions(WrittenFile::Elsewhere), Ok(None));
}

#[test]
fn windows_files_have_their_place() {
    let file = |is_symlink, in_config_dir| WrittenFile::Windows { is_symlink, in_config_dir };
    assert_eq!(restrict_file_permissions(file(false, Some(true))), Ok(None));
    assert_eq!(restrict_file_permissions(file(false, None)), Ok(None));
    let outside = restrict_file_permissions(file(false, Some(false))).unwrap_err();
    assert_eq!(outside, SecureFileError::OutsideConfigDir);
    assert_eq!(outside.kind(), ErrorKind::PermissionDenied);
    assert_eq!(
        outside.message(),
        "secure file must be under the CodexBar config directory"
    );
    for place in [None, Some(true), Some(false)] {
        let link = restrict_file_permissions(file(true, place)).unwrap_err();
        assert_eq!(link, SecureFileError::Symlink);
        assert_eq!(link.kind(), ErrorKind::PermissionDenied);
        assert_eq!(link.message(), "secure file path must not be a symlink");
    }
}

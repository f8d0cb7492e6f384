//! Protected files as they are read from and written to disk.

use std::io::{Read, Seek, SeekFrom, Write};

use secure_file::envelope::{
    is_writable, next_read_step, plain_text, read_string, read_string_dpapi, status,
    write_string, write_string_dpapi, write_string_with, FoundFile, ProtectedFile, ReadStep, SecureFileStatus,
    FORMAT, SOFTWARE_AES256_GCM, VERSION, WINDOWS_DPAPI_MACHINE, WINDOWS_DPAPI_USER,
};
use secure_file::error::{ErrorKind, SecureFileError};
use secure_file::platform::DpapiReply;
use secure_file::software::HostIdentity;

const SALT: [u8; 16] = [0, 1, 2, 3, 4, 5, 6, 7, 8, 9, 10, 11, 12, 13, 14, 15];
const NONCE: [u8; 12] = [16, 17, 18, 19, 20, 21, 22, 23, 24, 25, 26, 27];

fn host() -> HostIdentity {
    HostIdentity {
        machine_id: Some(b"0123456789abcdef\n".to_vec()),
        hostname: Some("box".to_string()),
        username: Some("ann".to_string()),
    }
}

fn nobody() -> HostIdentity {
    HostIdentity { machine_id: None, hostname: None, username: None }
}

fn file(format: &str, version: u32, protection: &str, payload: &str) -> ProtectedFile {
    ProtectedFile {
        format: format.to_string(),
        version,
        protection: protection.to_string(),
        payload: payload.to_string(),
    }
}

fn to_json(file: &ProtectedFile) -> String {
    let mut fields = serde_json::Map::new();
    fields.insert("format".to_string(), serde_json::Value::from(file.format.as_str()));
    fields.insert("version".to_string(), serde_json::Value::from(file.version));
    fields.insert("protection".to_string(), serde_json::Value::from(file.protection.as_str()));
    fields.insert("payload".to_string(), serde_json::Value::from(file.payload.as_str()));
    serde_json::to_string_pretty(&serde_json::Value::Object(fields)).unwrap()
}

fn from_json(raw: &str) -> Option<ProtectedFile> {
    let value: serde_json::Value = serde_json::from_str(raw).ok()?;
    Some(ProtectedFile {
        format: value.get("format")?.as_str()?.to_string(),
        version: value.get("version")?.as_u64()? as u32,
        protection: value.get("protection")?.as_str()?.to_string(),
        payload: value.get("payload")?.as_str()?.to_string(),
    })
}

/// What a file holds after `text` was written to it.
fn through_disk(text: &str) -> String {
    let mut disk = tempfile::tempfile().unwrap();
    disk.write_all(text.as_bytes()).unwrap();
    disk.seek(SeekFrom::Start(0)).unwrap();
    let mut back = String::new();
    disk.read_to_string(&mut back).unwrap();
    back
}

#[test]
fn reads_plaintext_json_without_wrapper() {
    let raw = through_disk(r#"{"hello":"world"}"#);
    let parsed = from_json(&raw);
    assert_eq!(read_string(&host(), raw, parsed).unwrap(), r#"{"hello":"world"}"#);
}

#[test]
fn write_roundtrips_on_this_platform() {
    let written = write_string(&host(), r#"{"secret":"value"}"#).unwrap();
    let raw = through_disk(&to_json(&written));
    let parsed = from_json(&raw);
    assert_eq!(read_string(&host(), raw, parsed).unwrap(), r#"{"secret":"value"}"#);
}

#[test]
fn non_windows_write_uses_encrypted_wrapper() {
    let written = write_string(&host(), r#"{"secret":"value"}"#).unwrap();
    let raw = through_disk(&to_json(&written));
    assert!(raw.contains(FORMAT));
    assert!(raw.contains(SOFTWARE_AES256_GCM));
    assert!(!raw.contains("\"secret\":\"value\""));
}

#[test]
fn status_reports_missing_plaintext_and_protected_files() {
    assert_eq!(status(FoundFile::Missing), SecureFileStatus::Missing);

    let plain = through_disk(r#"{"secret":"value"}"#);
    assert_eq!(status(FoundFile::Text(from_json(&plain))), SecureFileStatus::Plaintext);

    let protected = through_disk(&to_json(&file(FORMAT, VERSION, WINDOWS_DPAPI_USER, "AA==")));
    assert_eq!(
        status(FoundFile::Text(from_json(&protected))),
        SecureFileStatus::Protected(WINDOWS_DPAPI_USER.to_string())
    );
}

#[test]
fn status_reports_unsupported_wrappers_as_unreadable() {
    let raw = through_disk(&to_json(&file(FORMAT, VERSION + 1, WINDOWS_DPAPI_USER, "AA==")));
    let found = FoundFile::Text(from_json(&raw));
    assert!(matches!(status(found), SecureFileStatus::Unreadable(_)));
}

#[test]
fn status_gives_its_reasons() {
    assert_eq!(
        status(FoundFile::Unreadable("permission denied".to_string())),
        SecureFileStatus::Unreadable("permission denied".to_string())
    );
    assert_eq!(
        status(FoundFile::Text(Some(file(FORMAT, 4294967295, WINDOWS_DPAPI_USER, "AA==")))),
        SecureFileStatus::Unreadable("unsupported secure file version 4294967295".to_string())
    );
    assert_eq!(
        status(FoundFile::Text(Some(file(FORMAT, 0, "rot13", "AA==")))),
        SecureFileStatus::Unreadable("unsupported secure file version 0".to_string())
    );
    assert_eq!(
        status(FoundFile::Text(Some(file(FORMAT, 1, "rot13", "AA==")))),
        SecureFileStatus::Unreadable("unsupported secure file protection rot13".to_string())
    );
    assert_eq!(
        status(FoundFile::Text(Some(file("something.else", 7, "rot13", "AA==")))),
        SecureFileStatus::Plaintext
    );
    for name in [WINDOWS_DPAPI_USER, WINDOWS_DPAPI_MACHINE, SOFTWARE_AES256_GCM] {
        assert_eq!(
            status(FoundFile::Text(Some(file(FORMAT, 1, name, "!")))),
            SecureFileStatus::Protected(name.to_string())
        );
    }
}

#[test]
fn constants_are_those_on_disk() {
    assert_eq!(FORMAT, "codexbar.secure-file");
    assert_eq!(VERSION, 1);
    assert_eq!(WINDOWS_DPAPI_USER, "windows-dpapi-user");
    assert_eq!(WINDOWS_DPAPI_MACHINE, "windows-dpapi-machine");
    assert_eq!(SOFTWARE_AES256_GCM, "software-aes256gcm-v1");
}

#[test]
fn other_formats_are_handed_back() {
    let other = file("something.else", 1, SOFTWARE_AES256_GCM, "AA==");
    assert_eq!(read_string(&nobody(), "as it is".to_string(), Some(other)).unwrap(), "as it is");
}

#[test]
fn unknown_versions_and_protections_are_refused() {
    let raw = String::new;
    let newer = read_string(&host(), raw(), Some(file(FORMAT, 2, SOFTWARE_AES256_GCM, "AA==")));
    let error = newer.unwrap_err();
    assert_eq!(error, SecureFileError::UnsupportedVersion(2));
    assert_eq!(error.kind(), ErrorKind::InvalidData);
    assert_eq!(error.message(), "unsupported secure file version 2");

    let odd = read_string(&host(), raw(), Some(file(FORMAT, 1, "rot13", "AA==")));
    let error = odd.unwrap_err();
    assert_eq!(error, SecureFileError::UnsupportedProtection("rot13".to_string()));
    assert_eq!(error.kind(), ErrorKind::InvalidData);
    assert_eq!(error.message(), "unsupported secure file protection rot13");
}

#[test]
fn windows_files_are_refused_elsewhere() {
    for name in [WINDOWS_DPAPI_USER, WINDOWS_DPAPI_MACHINE] {
        let result = read_string(&host(), String::new(), Some(file(FORMAT, 1, name, "AA==")));
        let error = result.unwrap_err();
        assert_eq!(error, SecureFileError::DpapiUnavailable);
        assert_eq!(error.kind(), ErrorKind::Unsupported);
        assert_eq!(
            error.message(),
            "Windows DPAPI-protected files can only be read on Windows by the same user"
        );
    }
}

#[test]
fn broken_payloads_are_refused() {
    for (payload, complaint) in [
        ("!AAA", "Invalid symbol 33, offset 0."),
        ("AA", "Invalid padding"),
        ("A", "Invalid input length: 1"),
        ("AB==", "Invalid last symbol 66, offset 1."),
        ("AA=A", "Invalid symbol 61, offset 2."),
    ] {
        for name in [WINDOWS_DPAPI_USER, SOFTWARE_AES256_GCM] {
            let result = read_string(&host(), String::new(), Some(file(FORMAT, 1, name, payload)));
            let error = result.unwrap_err();
            assert_eq!(error, SecureFileError::InvalidBase64(complaint.to_string()));
            assert_eq!(error.kind(), ErrorKind::InvalidData);
            assert_eq!(error.message(), complaint);
        }
    }
}

#[test]
fn short_payloads_are_refused() {
    let short = file(FORMAT, 1, SOFTWARE_AES256_GCM, "AA==");
    let error = read_string(&nobody(), String::new(), Some(short)).unwrap_err();
    assert_eq!(error, SecureFileError::PayloadTooShort);
}

#[test]
fn read_steps_carry_the_decoded_payload() {
    for (payload, bytes) in [
        ("", &b""[..]),
        ("Zg==", &b"f"[..]),
        ("Zm8=", &b"fo"[..]),
        ("Zm9v", &b"foo"[..]),
        ("Zm9vYg==", &b"foob"[..]),
        ("+/8A", &[251, 255, 0][..]),
    ] {
        let dpapi = file(FORMAT, 1, WINDOWS_DPAPI_MACHINE, payload);
        match next_read_step(String::new(), Some(dpapi)) {
            Ok(ReadStep::Dpapi(encrypted)) => assert_eq!(encrypted, bytes),
            other => panic!("{:?}", other),
        }
        let software = file(FORMAT, 1, SOFTWARE_AES256_GCM, payload);
        match next_read_step(String::new(), Some(software)) {
            Ok(ReadStep::Software(encrypted)) => assert_eq!(encrypted, bytes),
            other => panic!("{:?}", other),
        }
    }
}

#[test]
fn plain_text_is_utf8() {
    assert_eq!(plain_text(vec![104, 195, 169]).unwrap(), "h\u{e9}");
    let error = plain_text(vec![104, 255]).unwrap_err();
    assert_eq!(
        error,
        SecureFileError::InvalidUtf8("invalid utf-8 sequence of 1 bytes from index 1".to_string())
    );
    assert_eq!(error.kind(), ErrorKind::InvalidData);
    assert_eq!(error.message(), "invalid utf-8 sequence of 1 bytes from index 1");
}

#[test]
fn windows_wrapper_holds_what_windows_gave() {
    let written = write_string_dpapi(DpapiReply::Output(vec![251, 255, 0, 7])).unwrap();
    assert_eq!(written.format, FORMAT);
    assert_eq!(written.version, VERSION);
    assert_eq!(written.protection, WINDOWS_DPAPI_USER);
    assert_eq!(written.payload, "+/8ABw==");
    let raw = to_json(&written);
    assert_eq!(
        status(FoundFile::Text(from_json(&raw))),
        SecureFileStatus::Protected(WINDOWS_DPAPI_USER.to_string())
    );
    match next_read_step(raw.clone(), from_json(&raw)) {
        Ok(ReadStep::Dpapi(encrypted)) => assert_eq!(encrypted, vec![251, 255, 0, 7]),
        other => panic!("{:?}", other),
    }
}

#[test]
fn windows_gives_the_text_back() {
    let plain = "caf\u{e9}".as_bytes().to_vec();
    assert_eq!(read_string_dpapi(DpapiReply::Output(plain)).unwrap(), "caf\u{e9}");
    assert_eq!(
        read_string_dpapi(DpapiReply::Output(vec![255])),
        Err(SecureFileError::InvalidUtf8(
            "invalid utf-8 sequence of 1 bytes from index 0".to_string()
        ))
    );
    assert_eq!(
        read_string_dpapi(DpapiReply::Failed("wrong user".to_string())).unwrap_err().message(),
        "CryptUnprotectData failed: wrong user"
    );
    assert_eq!(
        read_string_dpapi(DpapiReply::Null).unwrap_err().message(),
        "CryptUnprotectData returned null output"
    );
}

#[test]
fn windows_failures_are_final() {
    let error = write_string_dpapi(DpapiReply::Failed("denied".to_string())).unwrap_err();
    assert_eq!(
        error,
        SecureFileError::UserScopeFailed("CryptProtectData failed: denied".to_string())
    );
    assert_eq!(error.kind(), ErrorKind::Other);
    assert_eq!(
        error.message(),
        "CryptProtectData failed in user scope (CryptProtectData failed: denied); \
         machine-scope fallback is disabled"
    );
    assert_eq!(
        write_string_dpapi(DpapiReply::Null).unwrap_err().message(),
        "CryptProtectData failed in user scope (CryptProtectData returned null output); \
         machine-scope fallback is disabled"
    );
}

#[test]
fn written_envelope_has_its_exact_payload() {
    let written = write_string_with(&host(), &SALT, &NONCE, r#"{"secret":"value"}"#).unwrap();
    assert_eq!(written.format, "codexbar.secure-file");
    assert_eq!(written.version, 1);
    assert_eq!(written.protection, "software-aes256gcm-v1");
    assert_eq!(
        written.payload,
        "AAECAwQFBgcICQoLDA0ODxAREhMUFRYXGBkaG5JwICKZa5vIR5lFgtmfoiI8+csj8yFuZV0INFSbp1Z8ERs="
    );
}

#[test]
fn an_envelope_from_elsewhere_is_read() {
    let payload =
        "AAECAwQFBgcICQoLDA0ODxAREhMUFRYXGBkaG5JwICKZa5vIR5lFgtmfoiI8+csj8yFuZV0INFSbp1Z8ERs=";
    let stored = file(FORMAT, 1, SOFTWARE_AES256_GCM, payload);
    assert_eq!(
        read_string(&host(), String::new(), Some(stored)).unwrap(),
        r#"{"secret":"value"}"#
    );
}

#[test]
fn nothing_is_written_without_an_identity() {
    let error = write_string(&nobody(), "text").unwrap_err();
    assert_eq!(error, SecureFileError::NoHostIdentity);
    assert_eq!(error.kind(), ErrorKind::Other);
    assert_eq!(
        error.message(),
        "unable to derive non-Windows secure-file key material from host identity"
    );
}

#[test]
fn texts_of_ordinary_length_can_be_written() {
    assert!(is_writable(0));
    assert!(is_writable(1_000_000));
    assert!(!is_writable(usize::MAX));
    assert!(!is_writable(isize::MAX as usize));
}

//! What holds of protected files as a whole.

pub mod armor;
pub mod error;
pub mod file;
pub mod launch;
pub mod platform;
pub mod software;
pub mod text;

use vstd::prelude::*;
use vstd::utf8::encode_utf8;
use crate::armor::{is_base64_character, lemma_base64_alphabet, lemma_base64_round_trip};
use crate::envelope::{is_dpapi, lemma_software_is_not_dpapi, plain_outcome, read_outcome};
use crate::envelope::{read_step, text_status, write_dpapi_outcome};
use crate::envelope::{write_outcome, EnvelopeView, StatusView, StepView, SOFTWARE_AES256_GCM};
use crate::envelope::{WINDOWS_DPAPI_MACHINE, WINDOWS_DPAPI_USER};
use crate::error::{error_kind, error_message, DpapiCall, ErrorKind, ErrorView};
use crate::platform::{reply_outcome, DpapiReply};
use crate::software::{machine_secret, sealing, HostView, PLAINTEXT_MAX};
use crate::text::contains_text;

verus! {

/// The status of a file tells how reading it goes. A file in plain text is handed back as it is. A
/// file that is unreadable gives an error of invalid data, with the very reason that the status
/// gives. A file under a known protection is never handed back as it is: its payload is refused, or
/// goes to Windows or to the cipher, as the protection says.
pub proof fn law_status_tells_reading(host: HostView, raw: Seq<char>, file: Option<EnvelopeView>)
    ensures
        match text_status(file) {
            StatusView::Missing => false,
            StatusView::Plaintext => read_outcome(host, raw, file) == Ok::<_, ErrorView>(raw),
            StatusView::Unreadable(reason) => match read_outcome(host, raw, file) {
                Ok(_) => false,
                Err(error) => error_message(error) == reason && error_kind(error)
                    == ErrorKind::InvalidData,
            },
            StatusView::Protected(protection) => match read_step(raw, file) {
                Ok(StepView::Text(_)) => false,
                Ok(StepView::Dpapi(_)) => is_dpapi(protection),
                Ok(StepView::Software(_)) => protection == SOFTWARE_AES256_GCM@,
                Err(error) => error is InvalidBase64,
            },
        },
{
}

/// A file that a host writes is seen as protected by the cipher.
pub proof fn law_written_file_is_protected(
    host: HostView,
    salt: Seq<u8>,
    nonce: Seq<u8>,
    contents: Seq<char>,
)
    ensures
        write_outcome(host, salt, nonce, contents) matches Ok(file) ==> text_status(Some(file))
            == StatusView::Protected(SOFTWARE_AES256_GCM@),
{
}

/// A file can be written exactly where the host tells something of itself and the text is one that
/// the cipher takes, whatever salt and nonce are drawn.
pub proof fn law_when_writing_succeeds(
    host: HostView,
    salt: Seq<u8>,
    nonce: Seq<u8>,
    contents: Seq<char>,
)
    ensures
        write_outcome(host, salt, nonce, contents) is Ok <==> machine_secret(host).len() > 0
            && encode_utf8(contents).len() <= PLAINTEXT_MAX,
        machine_secret(host).len() == 0 ==> write_outcome(host, salt, nonce, contents) == Err::<
            EnvelopeView,
            _,
        >(ErrorView::NoHostIdentity),
{
}

/// The payload of a file that a host writes holds letters, digits, `+`, `/` and `=` alone. So no
/// text with any other character, such as a quotation mark, stands in it.
pub proof fn law_payload_shows_no_other_text(
    host: HostView,
    salt: Seq<u8>,
    nonce: Seq<u8>,
    contents: Seq<char>,
    text: Seq<char>,
)
    requires
        exists|i: int| 0 <= i < text.len() && !is_base64_character(#[trigger] text[i]),
    ensures
        write_outcome(host, salt, nonce, contents) matches Ok(file) ==> !contains_text(
            file.payload,
            text,
        ),
{
    if let Ok(file) = write_outcome(host, salt, nonce, contents) {
        let payload = sealing(host, salt, nonce, encode_utf8(contents))->Ok_0;
        lemma_base64_alphabet(payload);
        if contains_text(file.payload, text) {
            let start = choose|start: int|
                0 <= start <= file.payload.len() - text.len() && #[trigger] file.payload.subrange(
                    start,
                    start + text.len(),
                ) == text;
            let i = choose|i: int| 0 <= i < text.len() && !is_base64_character(#[trigger] text[i]);
            assert(file.payload.subrange(start, start + text.len())[i] == file.payload[start + i]);
        }
    }
}

/// Windows protects for the current user or not at all: a file that it wrote is seen as protected
/// for the user, and never as protected for the machine.
pub proof fn law_no_machine_scope(reply: DpapiReply)
    ensures
        write_dpapi_outcome(reply) is Ok <==> reply is Output,
        write_dpapi_outcome(reply) matches Ok(file) ==> text_status(Some(file))
            == StatusView::Protected(WINDOWS_DPAPI_USER@) && file.protection
            != WINDOWS_DPAPI_MACHINE@,
{
    reveal_strlit("windows-dpapi-user");
    reveal_strlit("windows-dpapi-machine");
    assert(WINDOWS_DPAPI_USER@.len() != WINDOWS_DPAPI_MACHINE@.len());
}

/// What Windows protected goes back to Windows byte for byte when the file is read; and a host
/// without Windows' data protection refuses the file.
pub proof fn law_dpapi_bytes_come_back(host: HostView, raw: Seq<char>, reply: DpapiReply)
    ensures
        reply matches DpapiReply::Output(bytes) ==> {
            &&& write_dpapi_outcome(reply) matches Ok(file)
            &&& read_step(raw, Some(file)) == Ok::<_, ErrorView>(StepView::Dpapi(bytes@))
            &&& read_outcome(host, raw, Some(file)) == Err::<Seq<char>, _>(
                ErrorView::DpapiUnavailable,
            )
        },
{
    if let DpapiReply::Output(bytes) = reply {
        lemma_base64_round_trip(bytes@);
    }
}

/// A text that Windows gives back as it was is read as it was.
pub proof fn law_dpapi_round_trip(contents: Seq<char>)
    ensures
        plain_outcome(Ok(encode_utf8(contents))) == Ok::<_, ErrorView>(contents),
        forall|reply: DpapiReply|
            (reply matches DpapiReply::Output(plain) && plain@ == encode_utf8(contents))
                ==> plain_outcome(#[trigger] reply_outcome(DpapiCall::Unprotect, reply)) == Ok::<
                _,
                ErrorView,
            >(contents),
{
    vstd::utf8::encode_utf8_valid_utf8(contents);
    vstd::utf8::encode_utf8_decode_utf8(contents);
}

/// Two hosts that tell the same of themselves, be it spread over other parts, read the same from
/// every file.
pub proof fn law_same_secret_same_reading(
    a: HostView,
    b: HostView,
    raw: Seq<char>,
    file: Option<EnvelopeView>,
)
    requires
        machine_secret(a) == machine_secret(b),
    ensures
        read_outcome(a, raw, file) == read_outcome(b, raw, file),
{
}

/// A host that tells nothing of itself reads no file that the cipher protects.
pub proof fn law_no_identity_no_reading(host: HostView, raw: Seq<char>, file: EnvelopeView)
    requires
        machine_secret(host).len() == 0,
        text_status(Some(file)) == StatusView::Protected(SOFTWARE_AES256_GCM@),
    ensures
        read_outcome(host, raw, Some(file)) is Err,
{
    lemma_software_is_not_dpapi();
}

} // verus!

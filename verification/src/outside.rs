//! What this crate takes on trust.
//!
//! Everything else in the crate is proved. The items here state what code
//! outside the crate does; nothing checks these statements but the reader.

use base64::Engine;
use std::path::PathBuf;
use vstd::prelude::*;

verus! {

/// `std::path::PathBuf`, carried through as an opaque value. Nothing is
/// claimed about it.
#[verifier::external_type_specification]
#[verifier::external_body]
pub struct ExPathBuf(PathBuf);

/// The text that the standard Base64 alphabet with padding gives for
/// `bytes`: what `base64::engine::general_purpose::STANDARD.encode`
/// returns.
pub uninterp spec fn base64_standard(bytes: Seq<u8>) -> Seq<char>;

/// What `urlencoding::decode` returns for `text`: the text with each
/// percent escape replaced by the byte it names, or nothing where the
/// result is not UTF-8.
pub uninterp spec fn percent_decoded(text: Seq<char>) -> Option<Seq<char>>;

/// What `str::to_lowercase` returns for `text`.
pub uninterp spec fn lower_case(text: Seq<char>) -> Seq<char>;

/// Calls `Engine::encode` on base64's `STANDARD` engine. The claim is only
/// that the result depends on the bytes alone. The call fails for inputs so
/// long that the length of the result overflows; those are left out.
#[verifier::external_body]
pub(crate) fn encode_base64(bytes: &Vec<u8>) -> (text: String)
    requires
        bytes.len() <= usize::MAX / 2,
    ensures
        text@ == base64_standard(bytes@),
{
    base64::engine::general_purpose::STANDARD.encode(bytes)
}

/// Calls `urlencoding::decode`. The claim is only that the result depends
/// on the text alone.
#[verifier::external_body]
pub(crate) fn decode_percent(text: &str) -> (r: Option<String>)
    ensures
        match r {
            Some(decoded) => percent_decoded(text@) == Some(decoded@),
            None => percent_decoded(text@) is None,
        },
{
    match urlencoding::decode(text) {
        Ok(decoded) => Some(decoded.into_owned()),
        Err(_) => None,
    }
}

/// Calls `str::to_lowercase`. The claim is only that the result depends on
/// the text alone.
#[verifier::external_body]
pub(crate) fn to_lower_case(text: &str) -> (r: String)
    ensures
        r@ == lower_case(text@),
{
    text.to_lowercase()
}

/// Calls `uuid::Uuid::new_v4` and writes the result out with `to_string`.
/// The identifier is random; whatever it is, it is written in the
/// hyphenated form of 36 characters. The call panics where the system
/// cannot supply random bytes.
#[verifier::external_body]
pub(crate) fn random_uuid_text() -> (id: String)
    ensures
        id@.len() == 36,
{
    uuid::Uuid::new_v4().to_string()
}

/// Calls `chrono::Utc::now` and writes the result out with
/// `DateTime::format`. Nothing is claimed about the text, which depends on
/// the clock. Writing out fails for a pattern that chrono does not know, so
/// only the one pattern this crate uses is let in: year, month, day, an
/// underscore, hour, minute, second.
#[verifier::external_body]
pub(crate) fn utc_now_text(pattern: &str) -> (text: String)
    requires
        pattern@ == "%Y%m%d_%H%M%S"@,
{
    chrono::Utc::now().format(pattern).to_string()
}

/// Calls `chrono::Utc::now` and writes the result out with
/// `DateTime::to_rfc3339`. Nothing is claimed about the text, which depends
/// on the clock.
#[verifier::external_body]
pub(crate) fn utc_now_rfc3339() -> (text: String) {
    chrono::Utc::now().to_rfc3339()
}

} // verus!

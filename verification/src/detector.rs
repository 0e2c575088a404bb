use vstd::prelude::*;

use crate::error::Error;
use crate::languages::Language;

verus! {

/// list of supported detectors
#[derive(Clone, Copy, Debug, PartialEq, Eq, Structural)]
pub enum Detectors {
    /// Heavyweight statistical detector; this build carries no backend
    /// for it, so choosing it reports that no detector is available.
    Lingua,
    /// Fast trigram detector.
    Whatlang,
}

/// The ISO 639-3 code of the detector's best guess for a text, where it
/// has one. The guess is outside code; detection is specified against
/// this name.
pub uninterp spec fn whatlang_code_of(s: Seq<char>) -> Option<Seq<char>>;

/// Relies on whatlang::detect and whatlang::Lang::code: the guess
/// depends on the text alone, and `code` renders it as ISO 639-3.
#[verifier::external_body]
fn whatlang_detect_code(text: &str) -> (r: Option<String>)
    ensures
        r is Some <==> whatlang_code_of(text@) is Some,
        r matches Some(c) ==> whatlang_code_of(text@) == Some(c@),
{
    whatlang::detect(text).map(|i| i.lang().code().to_string())
}

/// Detects the language of a text with the fast detector: the guess's
/// code mapped into the library's vocabulary, or an error where the
/// detector has no guess.
pub fn detect_language_whatlang(text: &str) -> (r: Result<Language, Error>)
    ensures
        r is Ok <==> whatlang_code_of(text@) is Some,
        r matches Ok(l) ==> l == Language::spec_from_iso693(whatlang_code_of(text@)->0),
{
    match whatlang_detect_code(text) {
        Some(code) => Ok(Language::from_iso693_str(code.as_str())),
        None => Err(Error::new_option("Unknown iso")),
    }
}

/// chooses the detector
pub fn detect_language(text: &str, detectors: &Detectors) -> (r: Result<Language, Error>)
    ensures
        *detectors is Whatlang ==> {
            &&& r is Ok <==> whatlang_code_of(text@) is Some
            &&& (r matches Ok(l) ==> l == Language::spec_from_iso693(whatlang_code_of(text@)->0))
        },
        *detectors is Lingua ==> r is Err,
{
    match detectors {
        Detectors::Lingua => Err(Error::new_option("No detector available")),
        Detectors::Whatlang => detect_language_whatlang(text),
    }
}

} // verus!

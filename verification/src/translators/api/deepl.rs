use vstd::prelude::*;

verus! {

/// The DeepL provider: token and endpoint. The request itself is the
/// embedding's part.
#[derive(Debug, Clone, PartialEq, Eq)]
pub struct DeeplTranslator {
    /// auth key
    pub auth: String,
    /// host url
    pub host: String,
}

impl DeeplTranslator {
    /// Stores the token beside the provider's endpoint.
    pub fn new(auth: &str) -> (r: Self)
        ensures
            r.auth@ == auth@,
            r.host@ == "https://api-free.deepl.com/v2/translate"@,
    {
        DeeplTranslator {
            auth: auth.to_owned(),
            host: "https://api-free.deepl.com/v2/translate".to_owned(),
        }
    }
}

/// One translation in a DeepL response.
#[derive(Debug, Clone, PartialEq, Eq)]
pub struct Translation {
    pub detected_source_language: String,
    pub text: String,
}

/// One entry of DeepL's language list.
#[derive(Debug, Clone, PartialEq, Eq)]
pub struct DeeplLanguage {
    pub code: String,
    pub name: String,
}

} // verus!

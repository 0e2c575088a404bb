use vstd::prelude::*;

verus! {

/// The body of a request against the commercial translation API.
#[derive(Debug, Clone, PartialEq, Eq)]
pub struct GoogleRequest {
    /// The input text to translate.
    pub q: Vec<String>,
    /// The language to use for translation of the input text.
    pub target: String,
    /// The format of the source text: html or plain text.
    pub format: String,
    /// The language of the source text, where the caller declares one.
    pub source: Option<String>,
    /// The translation model.
    pub model: Option<String>,
    /// A valid API key to handle requests for this API.
    pub key: String,
}

impl GoogleRequest {
    /// Assembles a plain-text request body for the base model.
    pub fn new(key: &str, from: Option<String>, to: String, queries: Vec<String>) -> (r: Self)
        ensures
            r.q == queries,
            r.target == to,
            r.format@ == "text"@,
            r.source == from,
            r.model matches Some(m) && m@ == "base"@,
            r.key@ == key@,
    {
        Self {
            q: queries,
            target: to,
            format: "text".to_owned(),
            source: from,
            model: Some("base".to_owned()),
            key: key.to_owned(),
        }
    }
}

} // verus!

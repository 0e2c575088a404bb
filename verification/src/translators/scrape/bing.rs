use vstd::prelude::*;

verus! {

/// The scraped Bing endpoint with the per-session values its pages hand
/// out. The values are scraped by the embedding and stored here.
#[derive(Debug, Clone, PartialEq, Eq)]
pub struct BingTranslator {
    /// website url
    pub host: String,
    /// api url
    pub api_host: String,
    /// extracted key
    pub key: i64,
    /// extracted token
    pub token: String,
    /// extracted ig
    pub ig: String,
    /// iid value
    pub iid: String,
    /// how long the text to translate can be
    pub input_limit: u32,
}

impl BingTranslator {
    /// Binds the endpoint to one scraped session: key, token and ig come
    /// from the session page the embedding fetched.
    pub fn with_session(key: i64, token: &str, ig: &str) -> (r: Self)
        ensures
            r.host@ == "https://www.bing.com"@,
            r.api_host@ == "https://www.bing.com/ttranslatev3?isVertical=1"@,
            r.key == key,
            r.token@ == token@,
            r.ig@ == ig@,
            r.iid@ == "translator.5028"@,
            r.input_limit == 1000,
    {
        Self {
            host: "https://www.bing.com".to_owned(),
            api_host: "https://www.bing.com/ttranslatev3?isVertical=1".to_owned(),
            key,
            token: token.to_owned(),
            ig: ig.to_owned(),
            iid: "translator.5028".to_owned(),
            input_limit: 1000,
        }
    }
}

/// The sentence-length block of a scraped response.
#[derive(Debug, Clone, PartialEq, Eq)]
pub struct SentLen {
    pub src_sent_len: Vec<u32>,
    pub trans_sent_len: Vec<u32>,
}

/// One translation of a scraped response.
#[derive(Debug, Clone, PartialEq, Eq)]
pub struct Translation {
    pub text: String,
    pub to: String,
    pub sent_len: Option<SentLen>,
}

} // verus!

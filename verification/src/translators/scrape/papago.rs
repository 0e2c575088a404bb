use vstd::prelude::*;

verus! {

/// The scraped Papago endpoint.
#[derive(Debug, Clone, PartialEq, Eq)]
pub struct PapagoTranslator {
    pub host: String,
}

impl PapagoTranslator {
    /// The scraped endpoint.
    pub fn new() -> (r: Self)
        ensures
            r.host@ == "https://papago.naver.com"@,
    {
        Self { host: "https://papago.naver.com".to_owned() }
    }
}

impl Default for PapagoTranslator {
    fn default() -> (r: Self)
        ensures
            r.host@ == "https://papago.naver.com"@,
    {
        Self::new()
    }
}

} // verus!

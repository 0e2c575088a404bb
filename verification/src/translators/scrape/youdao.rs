use vstd::prelude::*;

verus! {

/// The scraped Youdao endpoint pair.
#[derive(Debug, Clone, PartialEq, Eq)]
pub struct YoudaoTranslator {
    pub host: String,
    pub home: String,
}

impl YoudaoTranslator {
    /// The scraped endpoint.
    pub fn new() -> (r: Self)
        ensures
            r.host@ == "https://ai.youdao.com"@,
            r.home@ == "/product-fanyi-text.s"@,
    {
        Self { host: "https://ai.youdao.com".to_owned(), home: "/product-fanyi-text.s".to_owned() }
    }
}

impl Default for YoudaoTranslator {
    fn default() -> (r: Self)
        ensures
            r.host@ == "https://ai.youdao.com"@,
    {
        Self::new()
    }
}

} // verus!

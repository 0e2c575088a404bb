use vstd::prelude::*;

verus! {

/// The scraped Baidu endpoint pair.
#[derive(Debug, Clone, PartialEq, Eq)]
pub struct BaiduTranslator {
    /// base url
    pub host: String,
    /// api url
    pub api_host: String,
}

impl BaiduTranslator {
    /// sets urls
    pub fn new() -> (r: Self)
        ensures
            r.host@ == "https://fanyi.baidu.com"@,
            r.api_host@ == "https://fanyi.baidu.com/transapi"@,
    {
        Self {
            host: "https://fanyi.baidu.com".to_owned(),
            api_host: "https://fanyi.baidu.com/transapi".to_owned(),
        }
    }
}

impl Default for BaiduTranslator {
    fn default() -> (r: Self)
        ensures
            r.host@ == "https://fanyi.baidu.com"@,
            r.api_host@ == "https://fanyi.baidu.com/transapi"@,
    {
        Self::new()
    }
}

} // verus!

use vstd::prelude::*;

verus! {

/// The LibreTranslate provider: endpoint and optional token.
#[derive(Debug, Clone, PartialEq, Eq)]
pub struct LibreTranslateTranslator {
    /// base url
    pub host: String,
    pub api_key: Option<String>,
}

impl LibreTranslateTranslator {
    /// Stores the optional token beside the provider's endpoint.
    pub fn new(api_key: &Option<String>) -> (r: Self)
        ensures
            r.host@ == "https://translate.argosopentech.com"@,
            r.api_key is Some <==> api_key is Some,
            r.api_key matches Some(k) ==> (api_key matches Some(j) && k@ == j@),
    {
        Self { host: "https://translate.argosopentech.com".to_owned(), api_key: api_key.clone() }
    }
}

} // verus!

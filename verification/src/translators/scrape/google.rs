use vstd::prelude::*;

verus! {

/// The scraped Google endpoint and the fixed values its batch-execute
/// call wants.
#[derive(Debug, Clone, PartialEq, Eq)]
pub struct GoogleTranslator {
    pub host: String,
    pub rpcids: String,
    pub bl: String,
    pub soc_app: i32,
    pub platform: i32,
    pub device: i32,
    pub rt: char,
}

impl GoogleTranslator {
    /// The scraped endpoint with its published request constants.
    pub fn new() -> (r: Self)
        ensures
            r.host@ == "https://translate.google.com"@,
            r.rpcids@ == "MkEWBc"@,
            r.bl@ == "boq_translate-webserver_20201207.13_p0"@,
            r.soc_app == 1,
            r.platform == 1,
            r.device == 1,
            r.rt == 'c',
    {
        Self {
            host: "https://translate.google.com".to_owned(),
            rpcids: "MkEWBc".to_owned(),
            bl: "boq_translate-webserver_20201207.13_p0".to_owned(),
            soc_app: 1,
            platform: 1,
            device: 1,
            rt: 'c',
        }
    }
}

impl Default for GoogleTranslator {
    fn default() -> (r: Self)
        ensures
            r.host@ == "https://translate.google.com"@,
    {
        Self::new()
    }
}

} // verus!

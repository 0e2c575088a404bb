use vstd::prelude::*;

verus! {

/// The MyMemory provider: endpoint and the input limit it enforces.
#[derive(Debug, Clone, PartialEq, Eq)]
pub struct MyMemoryTranslator {
    /// how long the text to translate can be
    pub input_limit: u32,
    /// host url
    pub host: String,
}

impl MyMemoryTranslator {
    /// The provider with its published endpoint and limit.
    pub fn new() -> (r: Self)
        ensures
            r.input_limit == 500,
            r.host@ == "https://api.mymemory.translated.net/get"@,
    {
        MyMemoryTranslator {
            input_limit: 500,
            host: "https://api.mymemory.translated.net/get".to_owned(),
        }
    }
}

impl Default for MyMemoryTranslator {
    fn default() -> (r: Self)
        ensures
            r.input_limit == 500,
            r.host@ == "https://api.mymemory.translated.net/get"@,
    {
        MyMemoryTranslator::new()
    }
}

} // verus!

use vstd::prelude::*;

use crate::error::Error;
use crate::languages::Language;
use crate::translators::offline::ctranslate2::Device;
use crate::translators::offline::jparacrawl::JParaCrawlTranslator;

verus! {

/// The big JParaCrawl model driven through the out-of-process runner.
pub struct JParaCrawlBigTranslator {
    pub device: Device,
    pub base_path: String,
    pub tokenizer_filenames: Vec<(Language, String)>,
}

impl JParaCrawlBigTranslator {
    /// Binds the descriptor to a resolved model directory.
    pub fn new(base_path: String, device: Device) -> (r: Self)
        ensures
            r.device == device,
            r.base_path@ == base_path@,
            r.tokenizer_filenames@.len() == 2,
    {
        Self {
            device,
            base_path,
            tokenizer_filenames: JParaCrawlTranslator::get_tokenizer_filenames(),
        }
    }

    /// The directory that holds the weights of one translation direction
    /// of the big model, under the model's base path.
    pub fn get_translator_model_path(path: &str, from: Language, to: &Language) -> (r: Result<
        String,
        Error,
    >)
        ensures
            r is Ok <==> from.jparacrawl_code() is Some && to.jparacrawl_code() is Some,
            r matches Ok(s) ==> s@ == path@ + "/big-"@ + from.jparacrawl_code()->0 + "-"@
                + to.jparacrawl_code()->0,
    {
        let f = from.to_jparacrawl_str()?;
        let t = to.to_jparacrawl_str()?;
        let mut s = path.to_owned();
        s.append("/big-");
        s.append(f.as_str());
        s.append("-");
        s.append(t.as_str());
        Ok(s)
    }
}

} // verus!

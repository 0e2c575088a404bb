use vstd::prelude::*;

use crate::error::Error;
use crate::languages::Language;
use crate::translators::offline::ctranslate2::Device;
use crate::translators::offline::ModelFormat;

verus! {

/// The size variant of the JParaCrawl model family.
#[derive(Clone, Copy, Debug, PartialEq, Eq, Structural)]
pub enum JParaCrawlModelType {
    Small,
    Base,
    Big,
}

impl Default for JParaCrawlModelType {
    fn default() -> (r: Self)
        ensures
            r is Big,
    {
        JParaCrawlModelType::Big
    }
}

/// A local English/Japanese model bound to its on-disk assets.
pub struct JParaCrawlTranslator {
    pub device: Device,
    pub model_path: String,
    pub tokenizer_filenames: Vec<(Language, String)>,
    pub ident: String,
    pub model_format: ModelFormat,
}

/// The suffix that a weight format and device add to a model identifier,
/// with `-` before the width.
pub open spec fn spec_ct2_ending(device: Device, model_format: ModelFormat) -> Seq<char> {
    match model_format {
        ModelFormat::Compact => match device {
            Device::CPU => "-int8"@,
            Device::CUDA => "-float16"@,
        },
        ModelFormat::Normal => ""@,
    }
}

fn ct2_ending(device: &Device, model_format: &ModelFormat) -> (r: &'static str)
    ensures
        r@ == spec_ct2_ending(*device, *model_format),
{
    match model_format {
        ModelFormat::Compact => match device {
            Device::CPU => "-int8",
            Device::CUDA => "-float16",
        },
        ModelFormat::Normal => "",
    }
}

impl JParaCrawlTranslator {
    /// The source language of a hop: the declared language where it is one
    /// of the two the model speaks, else the counterpart of the target.
    pub open spec fn spec_get_from(from: Option<Language>, to: Language) -> Option<Language> {
        match from {
            Some(f) => if (f is English && to is Japanese) || (f is Japanese && to is English) {
                Some(f)
            } else {
                None
            },
            None => match to {
                Language::English => Some(Language::Japanese),
                Language::Japanese => Some(Language::English),
                _ => None,
            },
        }
    }

    /// Resolves the source language of a hop, rejecting any pair the model
    /// does not speak.
    pub fn get_from(from: Option<Language>, to: &Language) -> (r: Result<Language, Error>)
        ensures
            r is Ok <==> Self::spec_get_from(from, *to) is Some,
            r matches Ok(l) ==> Self::spec_get_from(from, *to) == Some(l),
    {
        if let Some(f) = from {
            if (f == Language::English && to == &Language::Japanese) || (f == Language::Japanese
                && to == &Language::English) {
                return Ok(f);
            }
            Err(Error::new_option("Language not supported"))
        } else {
            match to {
                Language::English => Ok(Language::Japanese),
                Language::Japanese => Ok(Language::English),
                _ => Err(Error::new_option("Language not supported")),
            }
        }
    }

    /// The directory that holds the weights of one translation direction,
    /// under the model's base path.
    pub fn get_translator_model_path(path: &str, from: Language, to: &Language) -> (r: Result<
        String,
        Error,
    >)
        ensures
            r is Ok <==> from.jparacrawl_code() is Some && to.jparacrawl_code() is Some,
            r matches Ok(s) ==> s@ == path@ + "/"@ + from.jparacrawl_code()->0 + "-"@
                + to.jparacrawl_code()->0,
    {
        let f = from.to_jparacrawl_str()?;
        let t = to.to_jparacrawl_str()?;
        let mut s = path.to_owned();
        s.append("/");
        s.append(f.as_str());
        s.append("-");
        s.append(t.as_str());
        Ok(s)
    }

    /// The tokenizer model file used for each of the two source languages.
    pub fn get_tokenizer_filenames() -> (r: Vec<(Language, String)>)
        ensures
            r@.len() == 2,
            r@[0].0 is English && r@[0].1@ == "spm.en.nopretok.model"@,
            r@[1].0 is Japanese && r@[1].1@ == "spm.ja.nopretok.model"@,
    {
        let mut r: Vec<(Language, String)> = Vec::new();
        r.push((Language::English, "spm.en.nopretok.model".to_owned()));
        r.push((Language::Japanese, "spm.ja.nopretok.model".to_owned()));
        r
    }

    /// What `get_ident` returns for each parameter triple.
    pub open spec fn spec_get_ident(
        device: Device,
        model_format: ModelFormat,
        model_type: JParaCrawlModelType,
    ) -> Seq<char> {
        (match model_type {
            JParaCrawlModelType::Small => "jparacrawl-small-ct2"@,
            JParaCrawlModelType::Base => "jparacrawl-base-ct2"@,
            JParaCrawlModelType::Big => "jparacrawl-big-ct2"@,
        }) + spec_ct2_ending(device, model_format)
    }

    /// The model-asset identifier of a parameter triple.
    pub fn get_ident(
        device: &Device,
        model_format: &ModelFormat,
        model_type: &JParaCrawlModelType,
    ) -> (r: String)
        ensures
            r@ == Self::spec_get_ident(*device, *model_format, *model_type),
    {
        let mut s: String = match model_type {
            JParaCrawlModelType::Small => "jparacrawl-small-ct2".to_owned(),
            JParaCrawlModelType::Base => "jparacrawl-base-ct2".to_owned(),
            JParaCrawlModelType::Big => "jparacrawl-big-ct2".to_owned(),
        };
        s.append(ct2_ending(device, model_format));
        s
    }

    /// Binds the descriptor to a resolved model directory. Looking the
    /// directory up by identifier is the embedding's part.
    pub fn with_model_path(
        device: &Device,
        model_format: &ModelFormat,
        model_type: &JParaCrawlModelType,
        model_path: String,
    ) -> (r: Self)
        ensures
            r.device == *device,
            r.model_format == *model_format,
            r.model_path@ == model_path@,
            r.ident@ == Self::spec_get_ident(*device, *model_format, *model_type),
            r.tokenizer_filenames@.len() == 2,
    {
        let ident = Self::get_ident(device, model_format, model_type);
        JParaCrawlTranslator {
            device: *device,
            model_path,
            tokenizer_filenames: Self::get_tokenizer_filenames(),
            ident,
            model_format: *model_format,
        }
    }
}

} // verus!

use vstd::prelude::*;

use crate::error::Error;
use crate::languages::Language;
use crate::translators::offline::ctranslate2::Device;
use crate::translators::offline::ModelFormat;

verus! {

/// The size variant of the M2M100 model family.
#[derive(Clone, Copy, Debug, PartialEq, Eq, Structural)]
pub enum M2M100ModelType {
    Small418m,
    Big12b,
}

impl Default for M2M100ModelType {
    fn default() -> (r: Self)
        ensures
            r is Big12b,
    {
        M2M100ModelType::Big12b
    }
}

/// A local many-to-many model bound to its on-disk assets.
pub struct M2M100Translator {
    pub device: Device,
    pub base_path: String,
    pub ident: String,
    pub model_format: ModelFormat,
}

/// The suffix that a weight format and device add to a model identifier,
/// with `_` before the width.
pub open spec fn spec_m2m_ending(device: Device, model_format: ModelFormat) -> Seq<char> {
    match model_format {
        ModelFormat::Compact => match device {
            Device::CPU => "_int8"@,
            Device::CUDA => "_float16"@,
        },
        ModelFormat::Normal => ""@,
    }
}

impl M2M100Translator {
    /// What `get_model_name` returns for each parameter triple.
    pub open spec fn spec_get_model_name(
        device: Device,
        model_format: ModelFormat,
        model_type: M2M100ModelType,
    ) -> Seq<char> {
        "m2m_100_"@ + (match model_type {
            M2M100ModelType::Small418m => "418m"@,
            M2M100ModelType::Big12b => "1.2b"@,
        }) + "_ct2"@ + spec_m2m_ending(device, model_format)
    }

    /// The model-asset identifier of a parameter triple.
    pub fn get_model_name(
        device: &Device,
        model_format: &ModelFormat,
        model_type: &M2M100ModelType,
    ) -> (r: String)
        ensures
            r@ == Self::spec_get_model_name(*device, *model_format, *model_type),
    {
        let mut s: String = "m2m_100_".to_owned();
        s.append(
            match model_type {
                M2M100ModelType::Small418m => "418m",
                M2M100ModelType::Big12b => "1.2b",
            },
        );
        s.append("_ct2");
        s.append(
            match model_format {
                ModelFormat::Compact => match device {
                    Device::CPU => "_int8",
                    Device::CUDA => "_float16",
                },
                ModelFormat::Normal => "",
            },
        );
        s
    }

    /// The decoder prefix of a batch: the target token `__lang__`, once
    /// per query.
    pub fn generate_target_prefix(lang: &str, ammount: usize) -> (r: Vec<String>)
        ensures
            r@.len() == ammount,
            forall|i: int| 0 <= i < r@.len() ==> r@[i]@ == "__"@ + lang@ + "__"@,
    {
        let mut target_prefix: Vec<String> = Vec::new();
        let mut i: usize = 0;
        while i < ammount
            invariant
                i <= ammount,
                target_prefix@.len() == i,
                forall|j: int| 0 <= j < i ==> target_prefix@[j]@ == "__"@ + lang@ + "__"@,
            decreases ammount - i,
        {
            let mut s: String = "__".to_owned();
            s.append(lang);
            s.append("__");
            target_prefix.push(s);
            i += 1;
        }
        target_prefix
    }

    /// Binds the descriptor to a resolved model directory. Looking the
    /// directory up by identifier is the embedding's part.
    pub fn with_model_path(
        device: &Device,
        model_format: &ModelFormat,
        model_type: &M2M100ModelType,
        base_path: String,
    ) -> (r: Self)
        ensures
            r.device == *device,
            r.model_format is Normal,
            r.base_path@ == base_path@,
            r.ident@ == Self::spec_get_model_name(*device, *model_format, *model_type),
    {
        let ident = Self::get_model_name(device, model_format, model_type);
        M2M100Translator { device: *device, base_path, ident, model_format: ModelFormat::Normal }
    }
}

/// Drops a fixed number of leading characters from each decoded sentence:
/// the target-language token that the decoder echoes back. Fails where a
/// sentence is shorter than the prefix.
pub fn strip_target_prefix(sentences: &Vec<String>, n: usize) -> (r: Result<Vec<String>, Error>)
    ensures
        r is Ok <==> (forall|i: int| 0 <= i < sentences@.len() ==> sentences@[i]@.len() >= n),
        r matches Ok(v) ==> v@.len() == sentences@.len() && (forall|i: int|
            0 <= i < v@.len() ==> v@[i]@ == sentences@[i]@.skip(n as int)),
{
    let mut out: Vec<String> = Vec::new();
    let mut i: usize = 0;
    while i < sentences.len()
        invariant
            i <= sentences@.len(),
            out@.len() == i,
            forall|j: int| 0 <= j < i ==> sentences@[j]@.len() >= n,
            forall|j: int| 0 <= j < i ==> out@[j]@ == sentences@[j]@.skip(n as int),
        decreases sentences@.len() - i,
    {
        let s: &String = &sentences[i];
        let len = s.as_str().unicode_len();
        if len < n {
            return Err(Error::new_option("Translated sentence shorter than its language prefix"));
        }
        let tail = s.as_str().substring_char(n, len).to_owned();
        proof {
            assert(tail@ == s@.subrange(n as int, s@.len() as int));
            assert(s@.subrange(n as int, s@.len() as int) == s@.skip(n as int));
        }
        out.push(tail);
        i += 1;
    }
    Ok(out)
}

} // verus!

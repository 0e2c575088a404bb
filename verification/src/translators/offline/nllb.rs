use vstd::prelude::*;

use crate::error::Error;
use crate::languages::Language;
use crate::translators::offline::ctranslate2::Device;
use crate::translators::offline::jparacrawl::spec_ct2_ending;
use crate::translators::offline::ModelFormat;

verus! {

/// The size variant of the NLLB model family.
#[derive(Clone, Copy, Debug, PartialEq, Eq, Structural)]
pub enum NllbModelType {
    DistilledBig1_3B,
    DistilledSmall600M,
    Big3_3B,
    Small1_3B,
}

impl Default for NllbModelType {
    fn default() -> (r: Self)
        ensures
            r is DistilledBig1_3B,
    {
        NllbModelType::DistilledBig1_3B
    }
}

/// A local NLLB model bound to its on-disk assets.
pub struct NllbTranslator {
    pub device: Device,
    pub base_path: String,
    pub ident: String,
    pub model_format: ModelFormat,
}

impl NllbTranslator {
    /// What `get_ident` returns for each parameter triple.
    pub open spec fn spec_get_ident(
        device: Device,
        model_format: ModelFormat,
        model_type: NllbModelType,
    ) -> Seq<char> {
        "nllb-"@ + (match model_type {
            NllbModelType::DistilledBig1_3B => "200-distilled-1.3B"@,
            NllbModelType::DistilledSmall600M => "200-distilled-600M"@,
            NllbModelType::Big3_3B => "200-3.3B"@,
            NllbModelType::Small1_3B => "200-1.3B"@,
        }) + "-ct2"@ + spec_ct2_ending(device, model_format)
    }

    /// The model-asset identifier of a parameter triple.
    pub fn get_ident(
        device: &Device,
        model_format: &ModelFormat,
        model_type: &NllbModelType,
    ) -> (r: String)
        ensures
            r@ == Self::spec_get_ident(*device, *model_format, *model_type),
    {
        let mut s: String = "nllb-".to_owned();
        s.append(
            match model_type {
                NllbModelType::DistilledBig1_3B => "200-distilled-1.3B",
                NllbModelType::DistilledSmall600M => "200-distilled-600M",
                NllbModelType::Big3_3B => "200-3.3B",
                NllbModelType::Small1_3B => "200-1.3B",
            },
        );
        s.append("-ct2");
        s.append(
            match model_format {
                ModelFormat::Compact => match device {
                    Device::CPU => "-int8",
                    Device::CUDA => "-float16",
                },
                ModelFormat::Normal => "",
            },
        );
        s
    }

    /// The decoder prefix of a batch: the target-language token, once per
    /// query.
    pub fn generate_target_prefix(lang: &str, ammount: usize) -> (r: Vec<String>)
        ensures
            r@.len() == ammount,
            forall|i: int| 0 <= i < r@.len() ==> r@[i]@ == lang@,
    {
        let mut target_prefix: Vec<String> = Vec::new();
        let mut i: usize = 0;
        while i < ammount
            invariant
                i <= ammount,
                target_prefix@.len() == i,
                forall|j: int| 0 <= j < i ==> target_prefix@[j]@ == lang@,
            decreases ammount - i,
        {
            target_prefix.push(lang.to_owned());
            i += 1;
        }
        target_prefix
    }

    /// The encoder's source token of a declared source language: its
    /// code, or the empty token where none is declared.
    pub open spec fn spec_from_tok(from: Option<Language>) -> Seq<char> {
        match from {
            Some(l) => l.nllb_code()->0,
            None => Seq::empty(),
        }
    }

    /// Frames a tokenized batch for the encoder: the source-language token
    /// in front (the empty token where no source is declared), the
    /// end-of-sentence marker behind. Fails for a declared source the
    /// model does not speak.
    pub fn tokenize(from: Option<Language>, tokenized: Vec<Vec<String>>) -> (r: Result<
        Vec<Vec<String>>,
        Error,
    >)
        ensures
            r is Ok <==> match from {
                Some(l) => l.nllb_code() is Some,
                None => true,
            },
            r matches Ok(v) ==> {
                &&& v@.len() == tokenized@.len()
                &&& forall|i: int|
                    0 <= i < v@.len() ==> v@[i]@.len() == tokenized@[i]@.len() + 2 && v@[i]@[0]@
                        == Self::spec_from_tok(from) && v@[i]@[v@[i]@.len() - 1]@ == "</s>"@ && (
                    forall|j: int|
                        0 <= j < tokenized@[i]@.len() ==> v@[i]@[j + 1]@ == tokenized@[i]@[j]@)
            },
    {
        let from_tok: String = match from {
            Some(l) => l.to_nllb_str()?,
            None => String::new(),
        };
        proof {
            assert(from_tok@ == Self::spec_from_tok(from));
        }
        let mut out: Vec<Vec<String>> = Vec::new();
        let mut i: usize = 0;
        let n = tokenized.len();
        let mut rest = tokenized;
        let ghost orig: Seq<Vec<String>> = rest@;
        while i < n
            invariant
                i <= n,
                n == orig.len(),
                rest@ =~= orig.skip(i as int),
                out@.len() == i,
                forall|k: int|
                    0 <= k < i ==> out@[k]@.len() == orig[k]@.len() + 2 && out@[k]@[0]@ == from_tok@
                        && out@[k]@[out@[k]@.len() - 1]@ == "</s>"@ && (forall|j: int|
                        0 <= j < orig[k]@.len() ==> out@[k]@[j + 1]@ == orig[k]@[j]@),
            decreases n - i,
        {
            let mut s: Vec<String> = rest.remove(0);
            s.insert(0, from_tok.clone());
            s.push("</s>".to_owned());
            out.push(s);
            i += 1;
        }
        Ok(out)
    }
}

} // verus!

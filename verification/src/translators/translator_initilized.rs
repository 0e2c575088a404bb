use vstd::prelude::*;

use crate::error::Error;
use crate::languages::Language;
use crate::translators::chainer::TranslatorInfo;
use crate::translators::tokens::Tokens;
use crate::translators::{Translator, TranslatorKind};

verus! {

/// Which capability shape a bound provider exposes: context-aware,
/// context-free, or local-model.
#[derive(Clone, Copy, Debug, PartialEq, Eq, Structural)]
pub enum TranslatorCapability {
    Context,
    NoContext,
    Offline,
}

/// A provider bound to a request path: its identity, its capability
/// shape, and the language it produces. Binding checks the credential;
/// the wire work of a hop is the embedding's part.
#[derive(Debug, PartialEq, Eq)]
pub struct TranslatorInitialized {
    pub data: TranslatorCapability,
    pub translator: Translator,
    pub to: Language,
}

impl Clone for TranslatorInitialized {
    fn clone(&self) -> (r: Self)
        ensures
            r == *self,
    {
        TranslatorInitialized {
            data: self.data,
            translator: self.translator.clone(),
            to: self.to,
        }
    }
}

impl TranslatorInitialized {
    /// Whether the token set holds what a provider needs to be bound.
    pub open spec fn spec_required_token_ok(t: Translator, tokens: Tokens) -> bool {
        match t {
            Translator::Deepl => tokens.deepl_token is Some,
            Translator::ChatGPT(_, _, _, _, _) => tokens.gpt_token is Some,
            Translator::Youdao(TranslatorKind::Api) => tokens.youdao_key is Some
                && tokens.youdao_secret is Some,
            Translator::Baidu(TranslatorKind::Api) => tokens.baidu_appid is Some
                && tokens.baidu_key is Some,
            _ => true,
        }
    }

    /// The capability shape each provider kind exposes.
    pub open spec fn spec_capability(t: Translator) -> TranslatorCapability {
        match t {
            Translator::ChatGPT(_, _, _, _, _) => TranslatorCapability::Context,
            Translator::EdgeGPT(_, _) => TranslatorCapability::Context,
            Translator::Nllb(_, _, _) => TranslatorCapability::Offline,
            Translator::M2M100(_, _, _) => TranslatorCapability::Offline,
            Translator::JParaCrawl(_, _, _) => TranslatorCapability::Offline,
            Translator::Sugoi(_, _) => TranslatorCapability::Offline,
            _ => TranslatorCapability::NoContext,
        }
    }

    /// The first credential a provider needs and the token set lacks,
    /// for binding's distinct missing-token error. Meaningful only where
    /// `spec_required_token_ok` fails.
    pub open spec fn spec_missing_credential(t: Translator, tokens: Tokens) -> Seq<char> {
        match t {
            Translator::Deepl => "deepl_token"@,
            Translator::ChatGPT(_, _, _, _, _) => "gpt_token"@,
            Translator::Youdao(TranslatorKind::Api) => if tokens.youdao_key is None {
                "youdao_key"@
            } else {
                "youdao_secret"@
            },
            Translator::Baidu(TranslatorKind::Api) => if tokens.baidu_appid is None {
                "baidu_appid"@
            } else {
                "baidu_key"@
            },
            _ => Seq::empty(),
        }
    }

    /// Binds one entry: succeeds exactly where the needed credential is
    /// present, and then carries the entry's identity, capability shape
    /// and target language; an absent credential raises the distinct
    /// missing-token error naming it.
    pub fn new(info: TranslatorInfo, tokens: &Tokens) -> (r: Result<Self, Error>)
        ensures
            r is Ok <==> Self::spec_required_token_ok(info.translator, *tokens),
            r matches Ok(t) ==> t.translator == info.translator && t.to == info.to && t.data
                == Self::spec_capability(info.translator),
            r matches Err(e) ==> (e matches Error::MissingToken(m) && m@
                == crate::error::spec_missing_token_message(
                Self::spec_missing_credential(info.translator, *tokens),
            )),
    {
        let data: TranslatorCapability = match &info.translator {
            Translator::Deepl => {
                if tokens.deepl_token.is_none() {
                    return Err(Error::missing_token("deepl_token"));
                }
                TranslatorCapability::NoContext
            },
            Translator::ChatGPT(_, _, _, _, _) => {
                if tokens.gpt_token.is_none() {
                    return Err(Error::missing_token("gpt_token"));
                }
                TranslatorCapability::Context
            },
            Translator::EdgeGPT(_, _) => TranslatorCapability::Context,
            Translator::Google => TranslatorCapability::NoContext,
            Translator::Bing => TranslatorCapability::NoContext,
            Translator::LibreTranslate => TranslatorCapability::NoContext,
            Translator::MyMemory => TranslatorCapability::NoContext,
            Translator::Papago => TranslatorCapability::NoContext,
            Translator::Youdao(TranslatorKind::Scrape) => TranslatorCapability::NoContext,
            Translator::Youdao(TranslatorKind::Api) => {
                if tokens.youdao_key.is_none() {
                    return Err(Error::missing_token("youdao_key"));
                }
                if tokens.youdao_secret.is_none() {
                    return Err(Error::missing_token("youdao_secret"));
                }
                TranslatorCapability::NoContext
            },
            Translator::Baidu(TranslatorKind::Scrape) => TranslatorCapability::NoContext,
            Translator::Baidu(TranslatorKind::Api) => {
                if tokens.baidu_appid.is_none() {
                    return Err(Error::missing_token("baidu_appid"));
                }
                if tokens.baidu_key.is_none() {
                    return Err(Error::missing_token("baidu_key"));
                }
                TranslatorCapability::NoContext
            },
            Translator::Nllb(_, _, _) => TranslatorCapability::Offline,
            Translator::M2M100(_, _, _) => TranslatorCapability::Offline,
            Translator::JParaCrawl(_, _, _) => TranslatorCapability::Offline,
            Translator::Sugoi(_, _) => TranslatorCapability::Offline,
        };
        Ok(Self { data, translator: info.translator, to: info.to })
    }
}

} // verus!

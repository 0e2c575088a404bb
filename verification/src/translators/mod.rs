use vstd::prelude::*;

pub mod api;
pub mod chainer;
pub mod chatbot;
pub mod execution;
pub mod context;
pub mod dev;
pub mod helpers;
pub mod offline;
pub mod scrape;
pub mod tokens;
pub mod translator_initilized;
pub mod translator_structure;

use crate::detector::Detectors;
use crate::error::Error;
use crate::languages::Language;
use crate::translators::api::chatgpt::ChatGPTModel;
use crate::translators::chainer::{
    spec_chain_tokens_ok, spec_is_cycle_error, spec_len_with_unknown, spec_selector_has_cycle,
    LangTable, TranslatorInfo, TranslatorSelectorInfo, TranslatorSelectorInitilized,
};
use crate::translators::api::chatgpt::spec_chatgpt_model_of;
use crate::translators::chatbot::{parse_number, spec_parse_number};
use crate::translators::helpers::{spec_split, split_on_char, str_eq};
use crate::translators::offline::ctranslate2::Device;
use crate::translators::translator_initilized::TranslatorInitialized;
use crate::translators::offline::jparacrawl::JParaCrawlModelType;
use crate::translators::offline::m2m100::M2M100ModelType;
use crate::translators::offline::nllb::NllbModelType;
use crate::translators::offline::ModelFormat;
use crate::translators::tokens::Tokens;

verus! {

/// The conversation style a generative scrape provider is asked to use.
#[derive(Clone, Copy, Debug, PartialEq, Eq, Structural)]
pub enum ConversationStyleClone {
    Creative,
    Balanced,
    Precise,
}

impl Default for ConversationStyleClone {
    fn default() -> (r: Self)
        ensures
            r is Balanced,
    {
        ConversationStyleClone::Balanced
    }
}

/// Whether a provider that exists in both shapes is used through its
/// token-authenticated API or by scraping its public endpoint.
#[derive(Clone, Copy, Debug, PartialEq, Eq, Structural)]
pub enum TranslatorKind {
    Api,
    Scrape,
}

impl Default for TranslatorKind {
    fn default() -> (r: Self)
        ensures
            r is Api,
    {
        TranslatorKind::Api
    }
}

impl TranslatorKind {
    /// The kind selected by an "use the API" flag.
    pub fn new_api(y: bool) -> (r: Self)
        ensures
            r is Api <==> y,
    {
        if y {
            TranslatorKind::Api
        } else {
            TranslatorKind::Scrape
        }
    }
}

/// A provider reference: the provider kind plus its construction
/// parameters. The generative entry carries model, proxy urls, a sampling
/// temperature in hundredths, and a wait between requests in
/// milliseconds; local models carry device, weight format and variant.
#[derive(Debug, PartialEq, Eq)]
pub enum Translator {
    Deepl,
    ChatGPT(ChatGPTModel, String, String, u32, u64),
    EdgeGPT(ConversationStyleClone, String),
    Google,
    Bing,
    LibreTranslate,
    MyMemory,
    Papago,
    Youdao(TranslatorKind),
    Baidu(TranslatorKind),
    Nllb(Device, ModelFormat, NllbModelType),
    M2M100(Device, ModelFormat, M2M100ModelType),
    JParaCrawl(Device, ModelFormat, JParaCrawlModelType),
    Sugoi(Device, ModelFormat),
}

impl Clone for Translator {
    fn clone(&self) -> (r: Self)
        ensures
            r == *self,
    {
        match self {
            Translator::Deepl => Translator::Deepl,
            Translator::ChatGPT(m, p, op, t, w) => Translator::ChatGPT(
                *m,
                p.clone(),
                op.clone(),
                *t,
                *w,
            ),
            Translator::EdgeGPT(c, s) => Translator::EdgeGPT(*c, s.clone()),
            Translator::Google => Translator::Google,
            Translator::Bing => Translator::Bing,
            Translator::LibreTranslate => Translator::LibreTranslate,
            Translator::MyMemory => Translator::MyMemory,
            Translator::Papago => Translator::Papago,
            Translator::Youdao(k) => Translator::Youdao(*k),
            Translator::Baidu(k) => Translator::Baidu(*k),
            Translator::Nllb(d, f, t) => Translator::Nllb(*d, *f, *t),
            Translator::M2M100(d, f, t) => Translator::M2M100(*d, *f, *t),
            Translator::JParaCrawl(d, f, t) => Translator::JParaCrawl(*d, *f, *t),
            Translator::Sugoi(d, f) => Translator::Sugoi(*d, *f),
        }
    }
}

impl Translator {
    /// True of the providers that are driven through an authenticated API.
    pub open spec fn spec_is_api(self) -> bool {
        ||| self is Deepl
        ||| self is ChatGPT
        ||| self is LibreTranslate
        ||| self is MyMemory
        ||| self matches Translator::Youdao(TranslatorKind::Api)
        ||| self matches Translator::Baidu(TranslatorKind::Api)
    }

    /// True of the providers that scrape a public endpoint.
    pub open spec fn spec_is_scraped(self) -> bool {
        ||| self is Google
        ||| self is Bing
        ||| self is Papago
        ||| self matches Translator::Youdao(TranslatorKind::Scrape)
        ||| self matches Translator::Baidu(TranslatorKind::Scrape)
    }

    /// True of the providers that go over the network at all.
    pub open spec fn spec_is_online(self) -> bool {
        self.spec_is_api() || self.spec_is_scraped() || self is EdgeGPT
    }

    fn is_api(&self) -> (r: bool)
        ensures
            r == self.spec_is_api(),
    {
        match self {
            Translator::Deepl => true,
            Translator::ChatGPT(_, _, _, _, _) => true,
            Translator::LibreTranslate => true,
            Translator::MyMemory => true,
            Translator::Youdao(TranslatorKind::Api) => true,
            Translator::Baidu(TranslatorKind::Api) => true,
            _ => false,
        }
    }

    fn is_scraped(&self) -> (r: bool)
        ensures
            r == self.spec_is_scraped(),
    {
        match self {
            Translator::Google => true,
            Translator::Bing => true,
            Translator::Papago => true,
            Translator::Youdao(TranslatorKind::Scrape) => true,
            Translator::Baidu(TranslatorKind::Scrape) => true,
            _ => false,
        }
    }

    fn is_online(&self) -> (r: bool)
        ensures
            r == self.spec_is_online(),
    {
        self.is_scraped() || self.is_api() || matches!(self, Translator::EdgeGPT(_, _))
    }

    /// The provider's display name.
    pub fn name(&self) -> (r: String)
        ensures
            r@ == self.spec_name(),
    {
        match self {
            Translator::Deepl => "Deepl".to_owned(),
            Translator::ChatGPT(_, _, _, _, _) => "ChatGPT".to_owned(),
            Translator::EdgeGPT(_, _) => "EdgeGPT".to_owned(),
            Translator::Google => "Google".to_owned(),
            Translator::Bing => "Bing".to_owned(),
            Translator::LibreTranslate => "LibreTranslate".to_owned(),
            Translator::MyMemory => "MyMemory".to_owned(),
            Translator::Papago => "Papago".to_owned(),
            Translator::Youdao(_) => "Youdao".to_owned(),
            Translator::Baidu(_) => "Baidu".to_owned(),
            Translator::Nllb(_, _, _) => "Nllb".to_owned(),
            Translator::M2M100(_, _, _) => "M2M100".to_owned(),
            Translator::JParaCrawl(_, _, _) => "JparaCrawl".to_owned(),
            Translator::Sugoi(_, _) => "Sugoi".to_owned(),
        }
    }

    /// What `name` returns for each provider.
    pub open spec fn spec_name(self) -> Seq<char> {
        match self {
            Translator::Deepl => "Deepl"@,
            Translator::ChatGPT(_, _, _, _, _) => "ChatGPT"@,
            Translator::EdgeGPT(_, _) => "EdgeGPT"@,
            Translator::Google => "Google"@,
            Translator::Bing => "Bing"@,
            Translator::LibreTranslate => "LibreTranslate"@,
            Translator::MyMemory => "MyMemory"@,
            Translator::Papago => "Papago"@,
            Translator::Youdao(_) => "Youdao"@,
            Translator::Baidu(_) => "Baidu"@,
            Translator::Nllb(_, _, _) => "Nllb"@,
            Translator::M2M100(_, _, _) => "M2M100"@,
            Translator::JParaCrawl(_, _, _) => "JparaCrawl"@,
            Translator::Sugoi(_, _) => "Sugoi"@,
        }
    }

    /// The name of each provider in a list, in order.
    pub fn convert_to_str(v: Vec<Translator>) -> (r: Vec<String>)
        ensures
            r@.len() == v@.len(),
            forall|i: int| 0 <= i < v@.len() ==> r@[i]@ == v@[i].spec_name(),
    {
        let mut r: Vec<String> = Vec::new();
        let mut i: usize = 0;
        while i < v.len()
            invariant
                i <= v@.len(),
                r@.len() == i,
                forall|j: int| 0 <= j < i ==> r@[j]@ == v@[j].spec_name(),
            decreases v@.len() - i,
        {
            r.push(v[i].name());
            i += 1;
        }
        r
    }

    /// One entry per provider kind, construction parameters at their
    /// defaults.
    pub fn get_all() -> (r: Vec<Translator>)
        ensures
            r@.len() == 14,
            r@[0] is Deepl,
            r@[1] is ChatGPT,
            r@[2] is EdgeGPT,
            r@[3] is Google,
            r@[4] is Bing,
            r@[5] is LibreTranslate,
            r@[6] is MyMemory,
            r@[7] is Papago,
            r@[8] matches Translator::Youdao(TranslatorKind::Api),
            r@[9] matches Translator::Baidu(TranslatorKind::Api),
            r@[10] is Nllb,
            r@[11] is M2M100,
            r@[12] is JParaCrawl,
            r@[13] is Sugoi,
    {
        let mut r: Vec<Translator> = Vec::new();
        r.push(Translator::Deepl);
        r.push(
            Translator::ChatGPT(ChatGPTModel::Gpt35Turbo, String::new(), String::new(), 100, 0),
        );
        r.push(Translator::EdgeGPT(ConversationStyleClone::Balanced, String::new()));
        r.push(Translator::Google);
        r.push(Translator::Bing);
        r.push(Translator::LibreTranslate);
        r.push(Translator::MyMemory);
        r.push(Translator::Papago);
        r.push(Translator::Youdao(TranslatorKind::Api));
        r.push(Translator::Baidu(TranslatorKind::Api));
        r.push(Translator::Nllb(Device::CPU, ModelFormat::Compact, NllbModelType::DistilledBig1_3B));
        r.push(Translator::M2M100(Device::CPU, ModelFormat::Compact, M2M100ModelType::Big12b));
        r.push(
            Translator::JParaCrawl(Device::CPU, ModelFormat::Compact, JParaCrawlModelType::Big),
        );
        r.push(Translator::Sugoi(Device::CPU, ModelFormat::Compact));
        r
    }

    /// The providers that go over the network, in the order of `get_all`.
    pub fn get_online() -> (r: Vec<Translator>)
        ensures
            r@.len() == 10,
            forall|i: int| 0 <= i < r@.len() ==> r@[i].spec_is_online(),
            r@[0] is Deepl,
            r@[1] is ChatGPT,
            r@[2] is EdgeGPT,
            r@[3] is Google,
            r@[4] is Bing,
            r@[5] is LibreTranslate,
            r@[6] is MyMemory,
            r@[7] is Papago,
            r@[8] matches Translator::Youdao(TranslatorKind::Api),
            r@[9] matches Translator::Baidu(TranslatorKind::Api),
    {
        let mut r: Vec<Translator> = Vec::new();
        r.push(Translator::Deepl);
        r.push(
            Translator::ChatGPT(ChatGPTModel::Gpt35Turbo, String::new(), String::new(), 100, 0),
        );
        r.push(Translator::EdgeGPT(ConversationStyleClone::Balanced, String::new()));
        r.push(Translator::Google);
        r.push(Translator::Bing);
        r.push(Translator::LibreTranslate);
        r.push(Translator::MyMemory);
        r.push(Translator::Papago);
        r.push(Translator::Youdao(TranslatorKind::Api));
        r.push(Translator::Baidu(TranslatorKind::Api));
        r
    }

    /// The providers that run locally, in the order of `get_all`.
    pub fn get_offline() -> (r: Vec<Translator>)
        ensures
            r@.len() == 4,
            forall|i: int| 0 <= i < r@.len() ==> !r@[i].spec_is_online(),
            r@[0] is Nllb,
            r@[1] is M2M100,
            r@[2] is JParaCrawl,
            r@[3] is Sugoi,
    {
        let mut r: Vec<Translator> = Vec::new();
        r.push(Translator::Nllb(Device::CPU, ModelFormat::Compact, NllbModelType::DistilledBig1_3B));
        r.push(Translator::M2M100(Device::CPU, ModelFormat::Compact, M2M100ModelType::Big12b));
        r.push(
            Translator::JParaCrawl(Device::CPU, ModelFormat::Compact, JParaCrawlModelType::Big),
        );
        r.push(Translator::Sugoi(Device::CPU, ModelFormat::Compact));
        r
    }

    /// The providers of `get_all` that scrape public endpoints.
    pub fn get_scraped() -> (r: Vec<Translator>)
        ensures
            r@.len() == 3,
            forall|i: int| 0 <= i < r@.len() ==> r@[i].spec_is_scraped(),
            r@[0] is Google,
            r@[1] is Bing,
            r@[2] is Papago,
    {
        let mut r: Vec<Translator> = Vec::new();
        r.push(Translator::Google);
        r.push(Translator::Bing);
        r.push(Translator::Papago);
        r
    }

    /// The providers of `get_all` that need a token.
    pub fn get_api() -> (r: Vec<Translator>)
        ensures
            r@.len() == 6,
            forall|i: int| 0 <= i < r@.len() ==> r@[i].spec_is_api(),
            r@[0] is Deepl,
            r@[1] is ChatGPT,
            r@[2] is LibreTranslate,
            r@[3] is MyMemory,
            r@[4] matches Translator::Youdao(TranslatorKind::Api),
            r@[5] matches Translator::Baidu(TranslatorKind::Api),
    {
        let mut r: Vec<Translator> = Vec::new();
        r.push(Translator::Deepl);
        r.push(
            Translator::ChatGPT(ChatGPTModel::Gpt35Turbo, String::new(), String::new(), 100, 0),
        );
        r.push(Translator::LibreTranslate);
        r.push(Translator::MyMemory);
        r.push(Translator::Youdao(TranslatorKind::Api));
        r.push(Translator::Baidu(TranslatorKind::Api));
        r
    }

    /// The token-authenticated providers whose token the given set holds.
    pub fn get_api_available(tokens: &Tokens) -> (r: Vec<Translator>)
        ensures
            r@.len() == (if tokens.deepl_token is Some {
                1int
            } else {
                0int
            }) + (if tokens.gpt_token is Some {
                1int
            } else {
                0int
            }) + (if tokens.libre_token is Some {
                1int
            } else {
                0int
            }),
            tokens.deepl_token is Some ==> r@[0] is Deepl,
            tokens.gpt_token is Some ==> r@[if tokens.deepl_token is Some {
                1int
            } else {
                0int
            }] is ChatGPT,
            tokens.libre_token is Some ==> r@[r@.len() - 1] is LibreTranslate,
    {
        let mut r: Vec<Translator> = Vec::new();
        if tokens.deepl_token.is_some() {
            r.push(Translator::Deepl);
        }
        if tokens.gpt_token.is_some() {
            r.push(
                Translator::ChatGPT(ChatGPTModel::Gpt35Turbo, String::new(), String::new(), 100, 0),
            );
        }
        if tokens.libre_token.is_some() {
            r.push(Translator::LibreTranslate);
        }
        r
    }
}

/// Whether a provider speaks a language: whether the language projects
/// into the provider's code vocabulary.
pub open spec fn spec_supports(t: Translator, l: Language) -> bool {
    match t {
        Translator::Deepl => l.deepl_code() is Some,
        Translator::ChatGPT(_, _, _, _, _) => l.name_code() is Some,
        Translator::EdgeGPT(_, _) => l.name_code() is Some,
        Translator::Google => l.google_code() is Some,
        Translator::Bing => l.bing_code() is Some,
        Translator::LibreTranslate => l.libretranslate_code() is Some,
        Translator::MyMemory => l.mymemory_code() is Some,
        Translator::Papago => l.papago_code() is Some,
        Translator::Youdao(_) => l.youdao_code() is Some,
        Translator::Baidu(_) => l.baidu_code() is Some,
        Translator::Nllb(_, _, _) => l.nllb_code() is Some,
        Translator::M2M100(_, _, _) => l.m2m100_code() is Some,
        Translator::JParaCrawl(_, _, _) => l.jparacrawl_code() is Some,
        Translator::Sugoi(_, _) => l.sugoi_code() is Some,
    }
}

/// Projects a language into a provider's code vocabulary, failing where
/// the provider does not speak it.
fn check_available(lang: &Language, translator: &Translator) -> (r: Result<String, Error>)
    ensures
        r is Ok <==> spec_supports(*translator, *lang),
{
    match translator {
        Translator::Deepl => lang.to_deepl_str(),
        Translator::ChatGPT(_, _, _, _, _) => lang.to_name_str(),
        Translator::EdgeGPT(_, _) => lang.to_name_str(),
        Translator::Google => lang.to_google_str(),
        Translator::Bing => lang.to_bing_str(),
        Translator::LibreTranslate => lang.to_libretranslate_str(),
        Translator::MyMemory => lang.to_mymemory_str(),
        Translator::Papago => lang.to_papago_str(),
        Translator::Youdao(_) => lang.to_youdao_str(),
        Translator::Baidu(_) => lang.to_baidu_str(),
        Translator::Nllb(_, _, _) => lang.to_nllb_str(),
        Translator::M2M100(_, _, _) => lang.to_m2m100_str(),
        Translator::JParaCrawl(_, _, _) => lang.to_jparacrawl_str(),
        Translator::Sugoi(_, _) => lang.to_sugoi_str(),
    }
}

/// Every pair a Selective topology references projects: the default
/// provider speaks the shared target, and each entry's provider speaks
/// both its key and the shared target it is rewritten to.
pub open spec fn spec_selective_supported(m: LangTable<Translator>, def: TranslatorInfo) -> bool {
    &&& spec_supports(def.translator, def.to)
    &&& forall|i: int|
        #![trigger m.entries_seq()[i]]
        0 <= i < m.entries_seq().len() ==> spec_supports(m.entries_seq()[i].1, m.entries_seq()[i].0)
            && spec_supports(m.entries_seq()[i].1, def.to)
}

/// Every pair a SelectiveChain topology references projects: the default
/// speaks its target, and each entry's provider speaks both its key and
/// its own target.
pub open spec fn spec_selective_chain_supported(
    m: LangTable<TranslatorInfo>,
    def: TranslatorInfo,
) -> bool {
    &&& spec_supports(def.translator, def.to)
    &&& forall|i: int|
        #![trigger m.entries_seq()[i]]
        0 <= i < m.entries_seq().len() ==> spec_supports(
            m.entries_seq()[i].1.translator,
            m.entries_seq()[i].0,
        ) && spec_supports(m.entries_seq()[i].1.translator, m.entries_seq()[i].1.to)
}

/// Every entry of a Chain or List topology projects to its own target.
pub open spec fn spec_chain_supported(v: Seq<TranslatorInfo>) -> bool {
    forall|i: int| 0 <= i < v.len() ==> spec_supports(v[i].translator, v[i].to)
}

/// The token set construction works with: the given one, or the empty
/// set where the caller supplies none.
pub open spec fn spec_tokens_of(t: Option<Tokens>) -> Tokens {
    match t {
        Some(v) => v,
        None => Tokens {
            gpt_token: None,
            gpt_proxy: None,
            gpt_old_proxy: None,
            deepl_token: None,
            libre_token: None,
            youdao_key: None,
            youdao_secret: None,
            baidu_appid: None,
            baidu_key: None,
        },
    }
}

/// The Translation Service Struct
pub struct Translators {
    /// Translators that are used, like chain, selective or selective chain
    pub translators: TranslatorSelectorInitilized,
    /// Fixed pause between two attempts of one hop, in milliseconds
    pub retry_delay_ms: Option<u64>,
    /// How many attempts one hop gets; none means a single attempt
    pub retry_count: Option<u32>,
    /// Choose between language detection
    pub detector: Detectors,
    /// Struct with all tokens
    pub tokens: Tokens,
    /// Upper bound on concurrent provider work the embedding runs
    pub max_sim_conn: usize,
}

impl Translators {
    /// The resolved topology's tables are well formed.
    pub open spec fn wf(self) -> bool {
        match self.translators {
            TranslatorSelectorInitilized::Selective(m) => m.wf(),
            TranslatorSelectorInitilized::SelectiveChain(m) => m.wf(),
            _ => true,
        }
    }

    /// Validates a topology against the providers' vocabularies, then
    /// resolves it. The support pre-check runs first: where any
    /// referenced pair does not project, the first failure propagates and
    /// nothing is resolved; a selective chain with a routing loop is
    /// rejected with the loop error before any entry is bound.
    #[verifier::loop_isolation(false)]
    fn generate_chain(selector: TranslatorSelectorInfo, tokens: &Tokens) -> (r: Result<
        TranslatorSelectorInitilized,
        Error,
    >)
        requires
            match selector {
                TranslatorSelectorInfo::Selective(m, _) => m.wf(),
                TranslatorSelectorInfo::SelectiveChain(m, _) => m.wf(),
                _ => true,
            },
        ensures
            match selector {
                TranslatorSelectorInfo::Selective(m, default) => {
                    &&& r is Ok <==> spec_selective_supported(m, default) && (forall|k: Language|
                        #[trigger] m.as_map().insert(
                            Language::Unknown,
                            default.translator,
                        ).contains_key(k) ==> TranslatorInitialized::spec_required_token_ok(
                            m.as_map().insert(Language::Unknown, default.translator)[k],
                            *tokens,
                        ))
                    &&& r matches Ok(s) ==> (s matches TranslatorSelectorInitilized::Selective(out)
                        && out.wf() && out.as_map().contains_key(Language::Unknown) && (forall|
                        k: Language,
                    |
                        out.as_map().contains_key(k) == m.as_map().insert(
                            Language::Unknown,
                            default.translator,
                        ).contains_key(k)) && (forall|k: Language|
                        #![trigger out.as_map()[k]]
                        out.as_map().contains_key(k) ==> out.as_map()[k].to == default.to
                            && out.as_map()[k].translator == m.as_map().insert(
                            Language::Unknown,
                            default.translator,
                        )[k]))
                },
                TranslatorSelectorInfo::SelectiveChain(m, default) => {
                    &&& (spec_selective_chain_supported(m, default) && spec_selector_has_cycle(
                        m.as_map().insert(Language::Unknown, default),
                        spec_len_with_unknown(m),
                    )) ==> (r matches Err(e) && spec_is_cycle_error(e))
                    &&& r is Ok <==> spec_selective_chain_supported(m, default)
                        && !spec_selector_has_cycle(
                        m.as_map().insert(Language::Unknown, default),
                        spec_len_with_unknown(m),
                    ) && (forall|k: Language|
                        #[trigger] m.as_map().insert(Language::Unknown, default).contains_key(k)
                            ==> TranslatorInitialized::spec_required_token_ok(
                            m.as_map().insert(Language::Unknown, default)[k].translator,
                            *tokens,
                        ))
                    &&& r matches Ok(s) ==> (s
                        matches TranslatorSelectorInitilized::SelectiveChain(out) && out.wf()
                        && out.as_map().contains_key(Language::Unknown) && (forall|k: Language|
                        out.as_map().contains_key(k) == m.as_map().insert(
                            Language::Unknown,
                            default,
                        ).contains_key(k)) && (forall|k: Language|
                        #![trigger out.as_map()[k]]
                        out.as_map().contains_key(k) ==> out.as_map()[k].translator
                            == m.as_map().insert(Language::Unknown, default)[k].translator
                            && out.as_map()[k].to == m.as_map().insert(
                            Language::Unknown,
                            default,
                        )[k].to))
                },
                TranslatorSelectorInfo::Chain(v) => {
                    &&& r is Ok <==> spec_chain_supported(v@) && (forall|i: int|
                        0 <= i < v@.len() ==> TranslatorInitialized::spec_required_token_ok(
                            v@[i].translator,
                            *tokens,
                        ))
                    &&& r matches Ok(s) ==> (s matches TranslatorSelectorInitilized::Chain(out)
                        && out@.len() == v@.len() && (forall|i: int|
                        #![trigger out@[i]]
                        0 <= i < v@.len() ==> out@[i].translator == v@[i].translator && out@[i].to
                            == v@[i].to))
                },
                TranslatorSelectorInfo::List(v) => {
                    &&& r is Ok <==> spec_chain_supported(v@) && (forall|i: int|
                        0 <= i < v@.len() ==> TranslatorInitialized::spec_required_token_ok(
                            v@[i].translator,
                            *tokens,
                        ))
                    &&& r matches Ok(s) ==> (s matches TranslatorSelectorInitilized::List(out)
                        && out@.len() == v@.len() && (forall|i: int|
                        #![trigger out@[i]]
                        0 <= i < v@.len() ==> out@[i].translator == v@[i].translator && out@[i].to
                            == v@[i].to))
                },
            },
    {
        match selector {
            TranslatorSelectorInfo::Selective(g, def) => {
                check_available(&def.to, &def.translator)?;
                let n = g.len();
                let mut i: usize = 0;
                while i < n
                    invariant
                        selector == TranslatorSelectorInfo::Selective(g, def),
                        g.wf(),
                        n == g.spec_len(),
                        i <= n,
                        spec_supports(def.translator, def.to),
                        forall|j: int|
                            #![trigger g.entries_seq()[j]]
                            0 <= j < i ==> spec_supports(
                                g.entries_seq()[j].1,
                                g.entries_seq()[j].0,
                            ) && spec_supports(g.entries_seq()[j].1, def.to),
                    decreases n - i,
                {
                    let key = g.key_at(i);
                    check_available(&key, g.val_at(i))?;
                    check_available(&def.to, g.val_at(i))?;
                    i += 1;
                }
                TranslatorSelectorInitilized::from_info(
                    TranslatorSelectorInfo::Selective(g, def),
                    tokens,
                )
            },
            TranslatorSelectorInfo::SelectiveChain(g, def) => {
                check_available(&def.to, &def.translator)?;
                let n = g.len();
                let mut i: usize = 0;
                while i < n
                    invariant
                        selector == TranslatorSelectorInfo::SelectiveChain(g, def),
                        g.wf(),
                        n == g.spec_len(),
                        i <= n,
                        spec_supports(def.translator, def.to),
                        forall|j: int|
                            #![trigger g.entries_seq()[j]]
                            0 <= j < i ==> spec_supports(
                                g.entries_seq()[j].1.translator,
                                g.entries_seq()[j].0,
                            ) && spec_supports(
                                g.entries_seq()[j].1.translator,
                                g.entries_seq()[j].1.to,
                            ),
                    decreases n - i,
                {
                    let key = g.key_at(i);
                    let value = g.val_at(i);
                    check_available(&key, &value.translator)?;
                    check_available(&value.to, &value.translator)?;
                    i += 1;
                }
                TranslatorSelectorInitilized::from_info(
                    TranslatorSelectorInfo::SelectiveChain(g, def),
                    tokens,
                )
            },
            TranslatorSelectorInfo::Chain(g) => {
                let mut i: usize = 0;
                while i < g.len()
                    invariant
                        selector == TranslatorSelectorInfo::Chain(g),
                        i <= g@.len(),
                        forall|j: int| 0 <= j < i ==> spec_supports(g@[j].translator, g@[j].to),
                    decreases g@.len() - i,
                {
                    check_available(&g[i].to, &g[i].translator)?;
                    i += 1;
                }
                TranslatorSelectorInitilized::from_info(TranslatorSelectorInfo::Chain(g), tokens)
            },
            TranslatorSelectorInfo::List(g) => {
                let mut i: usize = 0;
                while i < g.len()
                    invariant
                        selector == TranslatorSelectorInfo::List(g),
                        i <= g@.len(),
                        forall|j: int| 0 <= j < i ==> spec_supports(g@[j].translator, g@[j].to),
                    decreases g@.len() - i,
                {
                    check_available(&g[i].to, &g[i].translator)?;
                    i += 1;
                }
                TranslatorSelectorInitilized::from_info(TranslatorSelectorInfo::List(g), tokens)
            },
        }
    }

    /// This will initialize the translator Service
    pub fn new(
        tokens: Option<Tokens>,
        selector: TranslatorSelectorInfo,
        retry_delay_ms: Option<u64>,
        retry_count: Option<u32>,
        detector: Detectors,
    ) -> (r: Result<Self, Error>)
        requires
            match selector {
                TranslatorSelectorInfo::Selective(m, _) => m.wf(),
                TranslatorSelectorInfo::SelectiveChain(m, _) => m.wf(),
                _ => true,
            },
        ensures
            r matches Ok(t) ==> {
                &&& t.wf()
                &&& t.retry_delay_ms == retry_delay_ms
                &&& t.retry_count == retry_count
                &&& t.detector == detector
                &&& t.tokens == spec_tokens_of(tokens)
                &&& t.max_sim_conn == 5
            },
            (match selector {
                TranslatorSelectorInfo::SelectiveChain(m, default) => {
                    &&& (spec_selective_chain_supported(m, default) && spec_selector_has_cycle(
                        m.as_map().insert(Language::Unknown, default),
                        spec_len_with_unknown(m),
                    )) ==> (r matches Err(e) && spec_is_cycle_error(e))
                    &&& r is Ok <==> spec_selective_chain_supported(m, default)
                        && !spec_selector_has_cycle(
                        m.as_map().insert(Language::Unknown, default),
                        spec_len_with_unknown(m),
                    ) && (forall|k: Language|
                        #[trigger] m.as_map().insert(Language::Unknown, default).contains_key(k)
                            ==> TranslatorInitialized::spec_required_token_ok(
                            m.as_map().insert(Language::Unknown, default)[k].translator,
                            spec_tokens_of(tokens),
                        ))
                },
                TranslatorSelectorInfo::Selective(m, default) => {
                    r is Ok <==> spec_selective_supported(m, default) && (forall|k: Language|
                        #[trigger] m.as_map().insert(
                            Language::Unknown,
                            default.translator,
                        ).contains_key(k) ==> TranslatorInitialized::spec_required_token_ok(
                            m.as_map().insert(Language::Unknown, default.translator)[k],
                            spec_tokens_of(tokens),
                        ))
                },
                TranslatorSelectorInfo::Chain(v) => r is Ok <==> spec_chain_supported(v@) && (
                forall|i: int|
                    0 <= i < v@.len() ==> TranslatorInitialized::spec_required_token_ok(
                        v@[i].translator,
                        spec_tokens_of(tokens),
                    )),
                TranslatorSelectorInfo::List(v) => r is Ok <==> spec_chain_supported(v@) && (forall|
                    i: int,
                |
                    0 <= i < v@.len() ==> TranslatorInitialized::spec_required_token_ok(
                        v@[i].translator,
                        spec_tokens_of(tokens),
                    )),
            }),
    {
        let tokens = match tokens {
            Some(v) => v,
            None => Tokens::empty(),
        };
        let translators = Self::generate_chain(selector, &tokens)?;
        Ok(
            Self {
                translators,
                retry_delay_ms,
                retry_count,
                detector,
                tokens,
                max_sim_conn: 5,
            },
        )
    }

    /// returns the default translator that will be used when no
    /// translator for the specific case is specified
    fn get_default_translator(&self) -> (r: Result<&TranslatorInitialized, Error>)
        requires
            self.wf(),
        ensures
            match self.translators {
                TranslatorSelectorInitilized::Selective(m) => {
                    &&& r is Ok <==> m.contains_key(Language::Unknown)
                    &&& (r matches Ok(t) ==> *t == m.spec_get(Language::Unknown))
                },
                TranslatorSelectorInitilized::SelectiveChain(m) => {
                    &&& r is Ok <==> m.contains_key(Language::Unknown)
                    &&& (r matches Ok(t) ==> *t == m.spec_get(Language::Unknown))
                },
                _ => r is Err,
            },
    {
        match &self.translators {
            TranslatorSelectorInitilized::SelectiveChain(v) => match v.get(Language::Unknown) {
                Some(t) => Ok(t),
                None => Err(Error::new_option("No default value set")),
            },
            TranslatorSelectorInitilized::Selective(v) => match v.get(Language::Unknown) {
                Some(t) => Ok(t),
                None => Err(Error::new_option("No default value set")),
            },
            _ => Err(Error::new_option("No default")),
        }
    }

    /// Whether any provider of a list needs a detected source language.
    pub fn need_lang(items: &Vec<TranslatorInitialized>) -> (r: bool)
        ensures
            r == exists|i: int| 0 <= i < items@.len() && items@[i].translator is MyMemory,
    {
        let mut need_lang = false;
        let mut i: usize = 0;
        while i < items.len()
            invariant
                i <= items@.len(),
                need_lang == exists|j: int| 0 <= j < i && items@[j].translator is MyMemory,
            decreases items@.len() - i,
        {
            if matches!(items[i].translator, Translator::MyMemory) {
                need_lang = true;
            }
            i += 1;
        }
        need_lang
    }
}

/// A Selective entry whose provider does not speak its key, or does not
/// speak the shared target it would be rewritten to, refutes the
/// support pre-check, so construction fails before any provider is
/// bound. (A default pair that does not project refutes it directly.)
pub proof fn lemma_unsupported_selective_pair(
    m: LangTable<Translator>,
    default: TranslatorInfo,
    i: int,
)
    requires
        0 <= i < m.entries_seq().len(),
        !spec_supports(m.entries_seq()[i].1, m.entries_seq()[i].0) || !spec_supports(
            m.entries_seq()[i].1,
            default.to,
        ),
    ensures
        !spec_selective_supported(m, default),
{
    if spec_selective_supported(m, default) {
        assert(spec_supports(m.entries_seq()[i].1, m.entries_seq()[i].0) && spec_supports(
            m.entries_seq()[i].1,
            default.to,
        ));
    }
}

/// A SelectiveChain entry whose provider does not speak its key or its
/// own target refutes the support pre-check, so construction fails
/// before any provider is bound.
pub proof fn lemma_unsupported_selective_chain_pair(
    m: LangTable<TranslatorInfo>,
    default: TranslatorInfo,
    i: int,
)
    requires
        0 <= i < m.entries_seq().len(),
        !spec_supports(m.entries_seq()[i].1.translator, m.entries_seq()[i].0) || !spec_supports(
            m.entries_seq()[i].1.translator,
            m.entries_seq()[i].1.to,
        ),
    ensures
        !spec_selective_chain_supported(m, default),
{
    if spec_selective_chain_supported(m, default) {
        assert(spec_supports(m.entries_seq()[i].1.translator, m.entries_seq()[i].0)
            && spec_supports(m.entries_seq()[i].1.translator, m.entries_seq()[i].1.to));
    }
}

/// A Chain or List entry whose provider does not speak its target
/// refutes the support pre-check, so construction fails before any
/// provider is bound.
pub proof fn lemma_unsupported_chain_pair(v: Seq<TranslatorInfo>, i: int)
    requires
        0 <= i < v.len(),
        !spec_supports(v[i].translator, v[i].to),
    ensures
        !spec_chain_supported(v),
{
    if spec_chain_supported(v) {
        assert(spec_supports(v[i].translator, v[i].to));
    }
}

/// The conversation style a style token denotes.
pub open spec fn spec_style_of(tok: Seq<char>) -> Option<ConversationStyleClone> {
    if tok == "Creative"@ {
        Some(ConversationStyleClone::Creative)
    } else if tok == "Balanced"@ {
        Some(ConversationStyleClone::Balanced)
    } else if tok == "Precise"@ {
        Some(ConversationStyleClone::Precise)
    } else {
        None
    }
}

impl ConversationStyleClone {
    /// The conversation style a style token denotes.
    pub fn parse_style(s: &str) -> (r: Result<ConversationStyleClone, Error>)
        ensures
            r is Ok <==> spec_style_of(s@) is Some,
            r matches Ok(v) ==> spec_style_of(s@) == Some(v),
    {
        if str_eq(s, "Creative") {
            Ok(ConversationStyleClone::Creative)
        } else if str_eq(s, "Balanced") {
            Ok(ConversationStyleClone::Balanced)
        } else if str_eq(s, "Precise") {
            Ok(ConversationStyleClone::Precise)
        } else {
            Err(Error::new_option("No result found"))
        }
    }
}

/// The boolean a flag token denotes.
pub open spec fn spec_bool_of(tok: Seq<char>) -> Option<bool> {
    if tok == "true"@ {
        Some(true)
    } else if tok == "false"@ {
        Some(false)
    } else {
        None
    }
}

fn parse_bool(s: &str) -> (r: Result<bool, Error>)
    ensures
        r is Ok <==> spec_bool_of(s@) is Some,
        r matches Ok(v) ==> spec_bool_of(s@) == Some(v),
{
    if str_eq(s, "true") {
        Ok(true)
    } else if str_eq(s, "false") {
        Ok(false)
    } else {
        Err(Error::new_option("No result found"))
    }
}

/// The NLLB variant a token denotes.
pub open spec fn spec_nllb_type_of(tok: Seq<char>) -> Option<NllbModelType> {
    if tok == "DistilledBig1_3B"@ {
        Some(NllbModelType::DistilledBig1_3B)
    } else if tok == "DistilledSmall600M"@ {
        Some(NllbModelType::DistilledSmall600M)
    } else if tok == "Big3_3B"@ {
        Some(NllbModelType::Big3_3B)
    } else if tok == "Small1_3B"@ {
        Some(NllbModelType::Small1_3B)
    } else {
        None
    }
}

fn parse_nllb_type(s: &str) -> (r: Result<NllbModelType, Error>)
    ensures
        r is Ok <==> spec_nllb_type_of(s@) is Some,
        r matches Ok(v) ==> spec_nllb_type_of(s@) == Some(v),
{
    if str_eq(s, "DistilledBig1_3B") {
        Ok(NllbModelType::DistilledBig1_3B)
    } else if str_eq(s, "DistilledSmall600M") {
        Ok(NllbModelType::DistilledSmall600M)
    } else if str_eq(s, "Big3_3B") {
        Ok(NllbModelType::Big3_3B)
    } else if str_eq(s, "Small1_3B") {
        Ok(NllbModelType::Small1_3B)
    } else {
        Err(Error::new_option("No result found"))
    }
}

/// The M2M100 variant a token denotes; the empty token names the
/// default.
pub open spec fn spec_m2m100_type_of(tok: Seq<char>) -> Option<M2M100ModelType> {
    if tok.len() == 0 {
        Some(M2M100ModelType::Big12b)
    } else if tok == "Small418m"@ {
        Some(M2M100ModelType::Small418m)
    } else if tok == "Big12b"@ {
        Some(M2M100ModelType::Big12b)
    } else {
        None
    }
}

fn parse_m2m100_type(s: &str) -> (r: Result<M2M100ModelType, Error>)
    ensures
        r is Ok <==> spec_m2m100_type_of(s@) is Some,
        r matches Ok(v) ==> spec_m2m100_type_of(s@) == Some(v),
{
    if s.unicode_len() == 0 {
        Ok(M2M100ModelType::Big12b)
    } else if str_eq(s, "Small418m") {
        Ok(M2M100ModelType::Small418m)
    } else if str_eq(s, "Big12b") {
        Ok(M2M100ModelType::Big12b)
    } else {
        Err(Error::new_option("No result found"))
    }
}

/// The JParaCrawl variant a token denotes.
pub open spec fn spec_jparacrawl_type_of(tok: Seq<char>) -> Option<JParaCrawlModelType> {
    if tok == "Small"@ {
        Some(JParaCrawlModelType::Small)
    } else if tok == "Base"@ {
        Some(JParaCrawlModelType::Base)
    } else if tok == "Big"@ {
        Some(JParaCrawlModelType::Big)
    } else {
        None
    }
}

fn parse_jparacrawl_type(s: &str) -> (r: Result<JParaCrawlModelType, Error>)
    ensures
        r is Ok <==> spec_jparacrawl_type_of(s@) is Some,
        r matches Ok(v) ==> spec_jparacrawl_type_of(s@) == Some(v),
{
    if str_eq(s, "Small") {
        Ok(JParaCrawlModelType::Small)
    } else if str_eq(s, "Base") {
        Ok(JParaCrawlModelType::Base)
    } else if str_eq(s, "Big") {
        Ok(JParaCrawlModelType::Big)
    } else {
        Err(Error::new_option("No result found"))
    }
}

impl Translator {
    /// Parses a provider reference written as space-separated tokens:
    /// the provider keyword, then whatever parameters its kind takes — a
    /// model token and two numbers for the generative API entry, a style
    /// and an authentication token for the generative scrape entry, a
    /// flag for the kinds that exist as API and scrape, and a device
    /// flag plus variant token for the local models.
    pub fn parse_str(s: &str) -> (r: Result<Translator, Error>)
        ensures
            ({
                let toks = spec_split(s@, ' ');
                &&& toks[0] == "deepl"@ ==> (r matches Ok(t) && t is Deepl)
                &&& toks[0] == "google"@ ==> (r matches Ok(t) && t is Google)
                &&& toks[0] == "bing"@ ==> (r matches Ok(t) && t is Bing)
                &&& toks[0] == "libretranslate"@ ==> (r matches Ok(t) && t is LibreTranslate)
                &&& toks[0] == "mymemory"@ ==> (r matches Ok(t) && t is MyMemory)
                &&& toks[0] == "papago"@ ==> (r matches Ok(t) && t is Papago)
                &&& toks[0] == "edgegpt"@ ==> {
                    &&& r is Ok <==> toks.len() >= 3 && spec_style_of(toks[1]) is Some
                    &&& r matches Ok(t) ==> (t matches Translator::EdgeGPT(st, auth) && Some(st)
                        == spec_style_of(toks[1]) && auth@ == toks[2])
                }
                &&& toks[0] == "chatgpt"@ ==> {
                    &&& r is Ok <==> toks.len() >= 4 && (spec_chatgpt_model_of(toks[1]) is Some) && (
                    spec_parse_number(toks[2]) matches Some(v) && v <= u32::MAX) && (
                    spec_parse_number(toks[3]) matches Some(w) && w <= usize::MAX)
                    &&& r matches Ok(t) ==> (t matches Translator::ChatGPT(m, p, op, temp, wait)
                        && Some(m) == spec_chatgpt_model_of(toks[1]) && p@.len() == 0 && op@.len()
                        == 0 && spec_parse_number(toks[2]) == Some(temp as nat)
                        && spec_parse_number(toks[3]) == Some(wait as nat))
                }
                &&& toks[0] == "youdao"@ ==> {
                    &&& r is Ok <==> toks.len() >= 2 && spec_bool_of(toks[1]) is Some
                    &&& r matches Ok(t) ==> (t matches Translator::Youdao(k) && spec_bool_of(
                        toks[1],
                    ) == Some(k is Api))
                }
                &&& toks[0] == "baidu"@ ==> {
                    &&& r is Ok <==> toks.len() >= 2 && spec_bool_of(toks[1]) is Some
                    &&& r matches Ok(t) ==> (t matches Translator::Baidu(k) && spec_bool_of(toks[1])
                        == Some(k is Api))
                }
                &&& toks[0] == "nllb"@ ==> {
                    &&& r is Ok <==> toks.len() >= 3 && spec_bool_of(toks[1]) is Some
                        && spec_nllb_type_of(toks[2]) is Some
                    &&& r matches Ok(t) ==> (t matches Translator::Nllb(d, f, ty) && spec_bool_of(
                        toks[1],
                    ) == Some(d is CUDA) && f is Compact && spec_nllb_type_of(toks[2]) == Some(ty))
                }
                &&& toks[0] == "m2m100"@ ==> {
                    &&& r is Ok <==> toks.len() >= 3 && spec_bool_of(toks[1]) is Some
                        && spec_m2m100_type_of(toks[2]) is Some
                    &&& r matches Ok(t) ==> (t matches Translator::M2M100(d, f, ty) && spec_bool_of(
                        toks[1],
                    ) == Some(d is CUDA) && f is Compact && spec_m2m100_type_of(toks[2]) == Some(
                        ty,
                    ))
                }
                &&& toks[0] == "jparacrawl"@ ==> {
                    &&& r is Ok <==> toks.len() >= 3 && spec_bool_of(toks[1]) is Some
                        && spec_jparacrawl_type_of(toks[2]) is Some
                    &&& r matches Ok(t) ==> (t matches Translator::JParaCrawl(d, f, ty)
                        && spec_bool_of(toks[1]) == Some(d is CUDA) && f is Compact
                        && spec_jparacrawl_type_of(toks[2]) == Some(ty))
                }
                &&& toks[0] == "sugoi"@ ==> {
                    &&& r is Ok <==> toks.len() >= 2 && spec_bool_of(toks[1]) is Some
                    &&& r matches Ok(t) ==> (t matches Translator::Sugoi(d, f) && spec_bool_of(
                        toks[1],
                    ) == Some(d is CUDA) && f is Compact)
                }
                &&& (toks[0] != "deepl"@ && toks[0] != "google"@ && toks[0] != "bing"@ && toks[0]
                    != "libretranslate"@ && toks[0] != "mymemory"@ && toks[0] != "papago"@
                    && toks[0] != "edgegpt"@ && toks[0] != "chatgpt"@ && toks[0] != "youdao"@
                    && toks[0] != "baidu"@ && toks[0] != "nllb"@ && toks[0] != "m2m100"@
                    && toks[0] != "jparacrawl"@ && toks[0] != "sugoi"@) ==> r is Err
            }),
    {
        let toks = split_on_char(s, ' ');
        let ghost tok_views = toks@.map_values(|p: String| p@);
        proof {
            assert(tok_views.len() >= 1) by {
                crate::translators::helpers::lemma_split_len(s@, ' ');
            }
            lemma_keywords_distinct();
            assert(tok_views.len() == toks@.len());
            assert forall|i: int| 0 <= i < toks@.len() implies #[trigger] toks@[i]@ == spec_split(
                s@,
                ' ',
            )[i] by {
                assert(tok_views[i] == toks@[i]@);
            }
        }
        let head = toks[0].as_str();
        if str_eq(head, "deepl") {
            Ok(Translator::Deepl)
        } else if str_eq(head, "google") {
            Ok(Translator::Google)
        } else if str_eq(head, "bing") {
            Ok(Translator::Bing)
        } else if str_eq(head, "libretranslate") {
            Ok(Translator::LibreTranslate)
        } else if str_eq(head, "mymemory") {
            Ok(Translator::MyMemory)
        } else if str_eq(head, "papago") {
            Ok(Translator::Papago)
        } else if str_eq(head, "edgegpt") {
            if toks.len() < 3 {
                return Err(Error::new_option("No result found"));
            }
            let style = ConversationStyleClone::parse_style(toks[1].as_str())?;
            Ok(Translator::EdgeGPT(style, toks[2].clone()))
        } else if str_eq(head, "chatgpt") {
            if toks.len() < 4 {
                return Err(Error::new_option("No result found"));
            }
            let model = ChatGPTModel::parse_model(toks[1].as_str())?;
            let temp = match parse_number(toks[2].as_str()) {
                Some(v) if v <= u32::MAX as usize => v as u32,
                _ => {
                    return Err(Error::new_option("No result found"));
                },
            };
            let wait = match parse_number(toks[3].as_str()) {
                Some(v) => v as u64,
                None => {
                    return Err(Error::new_option("No result found"));
                },
            };
            Ok(Translator::ChatGPT(model, String::new(), String::new(), temp, wait))
        } else if str_eq(head, "youdao") {
            if toks.len() < 2 {
                return Err(Error::new_option("No result found"));
            }
            let b = parse_bool(toks[1].as_str())?;
            Ok(Translator::Youdao(TranslatorKind::new_api(b)))
        } else if str_eq(head, "baidu") {
            if toks.len() < 2 {
                return Err(Error::new_option("No result found"));
            }
            let b = parse_bool(toks[1].as_str())?;
            Ok(Translator::Baidu(TranslatorKind::new_api(b)))
        } else if str_eq(head, "nllb") {
            if toks.len() < 3 {
                return Err(Error::new_option("No result found"));
            }
            let b = parse_bool(toks[1].as_str())?;
            let ty = parse_nllb_type(toks[2].as_str())?;
            Ok(Translator::Nllb(Device::gpu(b), ModelFormat::Compact, ty))
        } else if str_eq(head, "m2m100") {
            if toks.len() < 3 {
                return Err(Error::new_option("No result found"));
            }
            let b = parse_bool(toks[1].as_str())?;
            let ty = parse_m2m100_type(toks[2].as_str())?;
            Ok(Translator::M2M100(Device::gpu(b), ModelFormat::Compact, ty))
        } else if str_eq(head, "jparacrawl") {
            if toks.len() < 3 {
                return Err(Error::new_option("No result found"));
            }
            let b = parse_bool(toks[1].as_str())?;
            let ty = parse_jparacrawl_type(toks[2].as_str())?;
            Ok(Translator::JParaCrawl(Device::gpu(b), ModelFormat::Compact, ty))
        } else if str_eq(head, "sugoi") {
            if toks.len() < 2 {
                return Err(Error::new_option("No result found"));
            }
            let b = parse_bool(toks[1].as_str())?;
            Ok(Translator::Sugoi(Device::gpu(b), ModelFormat::Compact))
        } else {
            Err(Error::new_option("No result found"))
        }
    }
}

impl core::str::FromStr for Translator {
    type Err = ();

    fn from_str(s: &str) -> Result<Self, Self::Err> {
        match Translator::parse_str(s) {
            Ok(t) => Ok(t),
            Err(_) => Err(()),
        }
    }
}

proof fn lemma_keywords_distinct()
    ensures
        "deepl"@ != "google"@,
        "deepl"@ != "bing"@,
        "deepl"@ != "libretranslate"@,
        "deepl"@ != "mymemory"@,
        "deepl"@ != "papago"@,
        "deepl"@ != "edgegpt"@,
        "deepl"@ != "chatgpt"@,
        "deepl"@ != "youdao"@,
        "deepl"@ != "baidu"@,
        "deepl"@ != "nllb"@,
        "deepl"@ != "m2m100"@,
        "deepl"@ != "jparacrawl"@,
        "deepl"@ != "sugoi"@,
        "google"@ != "bing"@,
        "google"@ != "libretranslate"@,
        "google"@ != "mymemory"@,
        "google"@ != "papago"@,
        "google"@ != "edgegpt"@,
        "google"@ != "chatgpt"@,
        "google"@ != "youdao"@,
        "google"@ != "baidu"@,
        "google"@ != "nllb"@,
        "google"@ != "m2m100"@,
        "google"@ != "jparacrawl"@,
        "google"@ != "sugoi"@,
        "bing"@ != "libretranslate"@,
        "bing"@ != "mymemory"@,
        "bing"@ != "papago"@,
        "bing"@ != "edgegpt"@,
        "bing"@ != "chatgpt"@,
        "bing"@ != "youdao"@,
        "bing"@ != "baidu"@,
        "bing"@ != "nllb"@,
        "bing"@ != "m2m100"@,
        "bing"@ != "jparacrawl"@,
        "bing"@ != "sugoi"@,
        "libretranslate"@ != "mymemory"@,
        "libretranslate"@ != "papago"@,
        "libretranslate"@ != "edgegpt"@,
        "libretranslate"@ != "chatgpt"@,
        "libretranslate"@ != "youdao"@,
        "libretranslate"@ != "baidu"@,
        "libretranslate"@ != "nllb"@,
        "libretranslate"@ != "m2m100"@,
        "libretranslate"@ != "jparacrawl"@,
        "libretranslate"@ != "sugoi"@,
        "mymemory"@ != "papago"@,
        "mymemory"@ != "edgegpt"@,
        "mymemory"@ != "chatgpt"@,
        "mymemory"@ != "youdao"@,
        "mymemory"@ != "baidu"@,
        "mymemory"@ != "nllb"@,
        "mymemory"@ != "m2m100"@,
        "mymemory"@ != "jparacrawl"@,
        "mymemory"@ != "sugoi"@,
        "papago"@ != "edgegpt"@,
        "papago"@ != "chatgpt"@,
        "papago"@ != "youdao"@,
        "papago"@ != "baidu"@,
        "papago"@ != "nllb"@,
        "papago"@ != "m2m100"@,
        "papago"@ != "jparacrawl"@,
        "papago"@ != "sugoi"@,
        "edgegpt"@ != "chatgpt"@,
        "edgegpt"@ != "youdao"@,
        "edgegpt"@ != "baidu"@,
        "edgegpt"@ != "nllb"@,
        "edgegpt"@ != "m2m100"@,
        "edgegpt"@ != "jparacrawl"@,
        "edgegpt"@ != "sugoi"@,
        "chatgpt"@ != "youdao"@,
        "chatgpt"@ != "baidu"@,
        "chatgpt"@ != "nllb"@,
        "chatgpt"@ != "m2m100"@,
        "chatgpt"@ != "jparacrawl"@,
        "chatgpt"@ != "sugoi"@,
        "youdao"@ != "baidu"@,
        "youdao"@ != "nllb"@,
        "youdao"@ != "m2m100"@,
        "youdao"@ != "jparacrawl"@,
        "youdao"@ != "sugoi"@,
        "baidu"@ != "nllb"@,
        "baidu"@ != "m2m100"@,
        "baidu"@ != "jparacrawl"@,
        "baidu"@ != "sugoi"@,
        "nllb"@ != "m2m100"@,
        "nllb"@ != "jparacrawl"@,
        "nllb"@ != "sugoi"@,
        "m2m100"@ != "jparacrawl"@,
        "m2m100"@ != "sugoi"@,
        "jparacrawl"@ != "sugoi"@,
{
    reveal_strlit("deepl");
    reveal_strlit("google");
    reveal_strlit("bing");
    reveal_strlit("libretranslate");
    reveal_strlit("mymemory");
    reveal_strlit("papago");
    reveal_strlit("edgegpt");
    reveal_strlit("chatgpt");
    reveal_strlit("youdao");
    reveal_strlit("baidu");
    reveal_strlit("nllb");
    reveal_strlit("m2m100");
    reveal_strlit("jparacrawl");
    reveal_strlit("sugoi");
    assert("deepl"@[0] == 'd');
    assert("google"@[0] == 'g');
    assert("bing"@[0] == 'b');
    assert("libretranslate"@[0] == 'l');
    assert("mymemory"@[0] == 'm');
    assert("papago"@[0] == 'p');
    assert("edgegpt"@[0] == 'e');
    assert("chatgpt"@[0] == 'c');
    assert("youdao"@[0] == 'y');
    assert("baidu"@[0] == 'b');
    assert("nllb"@[0] == 'n');
    assert("m2m100"@[0] == 'm');
    assert("jparacrawl"@[0] == 'j');
    assert("sugoi"@[0] == 's');
    assert("bing"@[1] == 'i');
    assert("baidu"@[1] == 'a');
    assert("mymemory"@[1] == 'y');
    assert("m2m100"@[1] == '2');
}

} // verus!

use vstd::prelude::*;

use crate::error::Error;
use crate::translators::helpers::str_eq;

verus! {

/// The closed set of languages the library speaks about, plus the
/// `Unknown` sentinel used for undeclared or undetected source languages.
#[derive(PartialEq, Eq, Structural, Hash, Clone, Copy, Debug)]
pub enum Language {
    English,
    Spanish,
    German,
    French,
    Italian,
    Portuguese,
    Dutch,
    Polish,
    Russian,
    Ukrainian,
    Chinese,
    Japanese,
    Korean,
    Arabic,
    Hindi,
    Vietnamese,
    Unknown,
}

impl Language {
    /// The language carrying a given ISO 639-3 code; `Unknown` for a code
    /// outside the library's vocabulary.
    pub fn from_iso693_str(code: &str) -> (r: Language)
        ensures
            r == Language::spec_from_iso693(code@),
    {
        if str_eq(code, "eng") {
            Language::English
        } else if str_eq(code, "spa") {
            Language::Spanish
        } else if str_eq(code, "deu") {
            Language::German
        } else if str_eq(code, "fra") {
            Language::French
        } else if str_eq(code, "ita") {
            Language::Italian
        } else if str_eq(code, "por") {
            Language::Portuguese
        } else if str_eq(code, "nld") {
            Language::Dutch
        } else if str_eq(code, "pol") {
            Language::Polish
        } else if str_eq(code, "rus") {
            Language::Russian
        } else if str_eq(code, "ukr") {
            Language::Ukrainian
        } else if str_eq(code, "cmn") {
            Language::Chinese
        } else if str_eq(code, "jpn") {
            Language::Japanese
        } else if str_eq(code, "kor") {
            Language::Korean
        } else if str_eq(code, "ara") {
            Language::Arabic
        } else if str_eq(code, "hin") {
            Language::Hindi
        } else if str_eq(code, "vie") {
            Language::Vietnamese
        } else {
            Language::Unknown
        }
    }

    /// What `from_iso693_str` returns for each code.
    pub open spec fn spec_from_iso693(code: Seq<char>) -> Language {
        if code == "eng"@ {
            Language::English
        } else if code == "spa"@ {
            Language::Spanish
        } else if code == "deu"@ {
            Language::German
        } else if code == "fra"@ {
            Language::French
        } else if code == "ita"@ {
            Language::Italian
        } else if code == "por"@ {
            Language::Portuguese
        } else if code == "nld"@ {
            Language::Dutch
        } else if code == "pol"@ {
            Language::Polish
        } else if code == "rus"@ {
            Language::Russian
        } else if code == "ukr"@ {
            Language::Ukrainian
        } else if code == "cmn"@ {
            Language::Chinese
        } else if code == "jpn"@ {
            Language::Japanese
        } else if code == "kor"@ {
            Language::Korean
        } else if code == "ara"@ {
            Language::Arabic
        } else if code == "hin"@ {
            Language::Hindi
        } else if code == "vie"@ {
            Language::Vietnamese
        } else {
            Language::Unknown
        }
    }

    /// The full name of each language, which the generative providers
    /// take in place of a code; `None` for the `Unknown` sentinel.
    pub open spec fn name_code(self) -> Option<Seq<char>> {
        match self {
            Language::English => Some("English"@),
            Language::Spanish => Some("Spanish"@),
            Language::German => Some("German"@),
            Language::French => Some("French"@),
            Language::Italian => Some("Italian"@),
            Language::Portuguese => Some("Portuguese"@),
            Language::Dutch => Some("Dutch"@),
            Language::Polish => Some("Polish"@),
            Language::Russian => Some("Russian"@),
            Language::Ukrainian => Some("Ukrainian"@),
            Language::Chinese => Some("Chinese"@),
            Language::Japanese => Some("Japanese"@),
            Language::Korean => Some("Korean"@),
            Language::Arabic => Some("Arabic"@),
            Language::Hindi => Some("Hindi"@),
            Language::Vietnamese => Some("Vietnamese"@),
            _ => None,
        }
    }

    /// Renders the language's full name, failing for the `Unknown`
    /// sentinel.
    pub fn to_name_str(&self) -> (r: Result<String, Error>)
        ensures
            r is Ok <==> self.name_code() is Some,
            r matches Ok(s) ==> self.name_code() == Some(s@),
    {
        match self {
            Language::English => Ok("English".to_owned()),
            Language::Spanish => Ok("Spanish".to_owned()),
            Language::German => Ok("German".to_owned()),
            Language::French => Ok("French".to_owned()),
            Language::Italian => Ok("Italian".to_owned()),
            Language::Portuguese => Ok("Portuguese".to_owned()),
            Language::Dutch => Ok("Dutch".to_owned()),
            Language::Polish => Ok("Polish".to_owned()),
            Language::Russian => Ok("Russian".to_owned()),
            Language::Ukrainian => Ok("Ukrainian".to_owned()),
            Language::Chinese => Ok("Chinese".to_owned()),
            Language::Japanese => Ok("Japanese".to_owned()),
            Language::Korean => Ok("Korean".to_owned()),
            Language::Arabic => Ok("Arabic".to_owned()),
            Language::Hindi => Ok("Hindi".to_owned()),
            Language::Vietnamese => Ok("Vietnamese".to_owned()),
            _ => Err(Error::new_option("Translator does not support this language")),
        }
    }

    /// The DeepL code of each supported language; `None` where the
    /// provider does not speak the language.
    pub open spec fn deepl_code(self) -> Option<Seq<char>> {
        match self {
            Language::English => Some("en"@),
            Language::Spanish => Some("es"@),
            Language::German => Some("de"@),
            Language::French => Some("fr"@),
            Language::Italian => Some("it"@),
            Language::Portuguese => Some("pt"@),
            Language::Dutch => Some("nl"@),
            Language::Polish => Some("pl"@),
            Language::Russian => Some("ru"@),
            Language::Ukrainian => Some("uk"@),
            Language::Chinese => Some("zh"@),
            Language::Japanese => Some("ja"@),
            Language::Korean => Some("ko"@),
            Language::Arabic => Some("ar"@),
            _ => None,
        }
    }

    /// Projects the language into the vocabulary described by
    /// `Language::deepl_code`, failing where it has no entry there.
    pub fn to_deepl_str(&self) -> (r: Result<String, Error>)
        ensures
            r is Ok <==> self.deepl_code() is Some,
            r matches Ok(s) ==> self.deepl_code() == Some(s@),
    {
        match self {
            Language::English => Ok("en".to_owned()),
            Language::Spanish => Ok("es".to_owned()),
            Language::German => Ok("de".to_owned()),
            Language::French => Ok("fr".to_owned()),
            Language::Italian => Ok("it".to_owned()),
            Language::Portuguese => Ok("pt".to_owned()),
            Language::Dutch => Ok("nl".to_owned()),
            Language::Polish => Ok("pl".to_owned()),
            Language::Russian => Ok("ru".to_owned()),
            Language::Ukrainian => Ok("uk".to_owned()),
            Language::Chinese => Ok("zh".to_owned()),
            Language::Japanese => Ok("ja".to_owned()),
            Language::Korean => Ok("ko".to_owned()),
            Language::Arabic => Ok("ar".to_owned()),
            _ => Err(Error::new_option("Translator does not support this language")),
        }
    }

    /// The Google code of each supported language; `None` where the
    /// provider does not speak the language.
    pub open spec fn google_code(self) -> Option<Seq<char>> {
        match self {
            Language::English => Some("en"@),
            Language::Spanish => Some("es"@),
            Language::German => Some("de"@),
            Language::French => Some("fr"@),
            Language::Italian => Some("it"@),
            Language::Portuguese => Some("pt"@),
            Language::Dutch => Some("nl"@),
            Language::Polish => Some("pl"@),
            Language::Russian => Some("ru"@),
            Language::Ukrainian => Some("uk"@),
            Language::Chinese => Some("zh-CN"@),
            Language::Japanese => Some("ja"@),
            Language::Korean => Some("ko"@),
            Language::Arabic => Some("ar"@),
            Language::Hindi => Some("hi"@),
            Language::Vietnamese => Some("vi"@),
            _ => None,
        }
    }

    /// Projects the language into the vocabulary described by
    /// `Language::google_code`, failing where it has no entry there.
    pub fn to_google_str(&self) -> (r: Result<String, Error>)
        ensures
            r is Ok <==> self.google_code() is Some,
            r matches Ok(s) ==> self.google_code() == Some(s@),
    {
        match self {
            Language::English => Ok("en".to_owned()),
            Language::Spanish => Ok("es".to_owned()),
            Language::German => Ok("de".to_owned()),
            Language::French => Ok("fr".to_owned()),
            Language::Italian => Ok("it".to_owned()),
            Language::Portuguese => Ok("pt".to_owned()),
            Language::Dutch => Ok("nl".to_owned()),
            Language::Polish => Ok("pl".to_owned()),
            Language::Russian => Ok("ru".to_owned()),
            Language::Ukrainian => Ok("uk".to_owned()),
            Language::Chinese => Ok("zh-CN".to_owned()),
            Language::Japanese => Ok("ja".to_owned()),
            Language::Korean => Ok("ko".to_owned()),
            Language::Arabic => Ok("ar".to_owned()),
            Language::Hindi => Ok("hi".to_owned()),
            Language::Vietnamese => Ok("vi".to_owned()),
            _ => Err(Error::new_option("Translator does not support this language")),
        }
    }

    /// The Bing code of each supported language; `None` where the
    /// provider does not speak the language.
    pub open spec fn bing_code(self) -> Option<Seq<char>> {
        match self {
            Language::English => Some("en"@),
            Language::Spanish => Some("es"@),
            Language::German => Some("de"@),
            Language::French => Some("fr"@),
            Language::Italian => Some("it"@),
            Language::Portuguese => Some("pt"@),
            Language::Dutch => Some("nl"@),
            Language::Polish => Some("pl"@),
            Language::Russian => Some("ru"@),
            Language::Ukrainian => Some("uk"@),
            Language::Chinese => Some("zh-Hans"@),
            Language::Japanese => Some("ja"@),
            Language::Korean => Some("ko"@),
            Language::Arabic => Some("ar"@),
            Language::Hindi => Some("hi"@),
            Language::Vietnamese => Some("vi"@),
            _ => None,
        }
    }

    /// Projects the language into the vocabulary described by
    /// `Language::bing_code`, failing where it has no entry there.
    pub fn to_bing_str(&self) -> (r: Result<String, Error>)
        ensures
            r is Ok <==> self.bing_code() is Some,
            r matches Ok(s) ==> self.bing_code() == Some(s@),
    {
        match self {
            Language::English => Ok("en".to_owned()),
            Language::Spanish => Ok("es".to_owned()),
            Language::German => Ok("de".to_owned()),
            Language::French => Ok("fr".to_owned()),
            Language::Italian => Ok("it".to_owned()),
            Language::Portuguese => Ok("pt".to_owned()),
            Language::Dutch => Ok("nl".to_owned()),
            Language::Polish => Ok("pl".to_owned()),
            Language::Russian => Ok("ru".to_owned()),
            Language::Ukrainian => Ok("uk".to_owned()),
            Language::Chinese => Ok("zh-Hans".to_owned()),
            Language::Japanese => Ok("ja".to_owned()),
            Language::Korean => Ok("ko".to_owned()),
            Language::Arabic => Ok("ar".to_owned()),
            Language::Hindi => Ok("hi".to_owned()),
            Language::Vietnamese => Ok("vi".to_owned()),
            _ => Err(Error::new_option("Translator does not support this language")),
        }
    }

    /// The LibreTranslate code of each supported language; `None` where the
    /// provider does not speak the language.
    pub open spec fn libretranslate_code(self) -> Option<Seq<char>> {
        match self {
            Language::English => Some("en"@),
            Language::Spanish => Some("es"@),
            Language::German => Some("de"@),
            Language::French => Some("fr"@),
            Language::Italian => Some("it"@),
            Language::Portuguese => Some("pt"@),
            Language::Dutch => Some("nl"@),
            Language::Polish => Some("pl"@),
            Language::Russian => Some("ru"@),
            Language::Ukrainian => Some("uk"@),
            Language::Chinese => Some("zh"@),
            Language::Japanese => Some("ja"@),
            Language::Korean => Some("ko"@),
            Language::Arabic => Some("ar"@),
            Language::Hindi => Some("hi"@),
            _ => None,
        }
    }

    /// Projects the language into the vocabulary described by
    /// `Language::libretranslate_code`, failing where it has no entry there.
    pub fn to_libretranslate_str(&self) -> (r: Result<String, Error>)
        ensures
            r is Ok <==> self.libretranslate_code() is Some,
            r matches Ok(s) ==> self.libretranslate_code() == Some(s@),
    {
        match self {
            Language::English => Ok("en".to_owned()),
            Language::Spanish => Ok("es".to_owned()),
            Language::German => Ok("de".to_owned()),
            Language::French => Ok("fr".to_owned()),
            Language::Italian => Ok("it".to_owned()),
            Language::Portuguese => Ok("pt".to_owned()),
            Language::Dutch => Ok("nl".to_owned()),
            Language::Polish => Ok("pl".to_owned()),
            Language::Russian => Ok("ru".to_owned()),
            Language::Ukrainian => Ok("uk".to_owned()),
            Language::Chinese => Ok("zh".to_owned()),
            Language::Japanese => Ok("ja".to_owned()),
            Language::Korean => Ok("ko".to_owned()),
            Language::Arabic => Ok("ar".to_owned()),
            Language::Hindi => Ok("hi".to_owned()),
            _ => Err(Error::new_option("Translator does not support this language")),
        }
    }

    /// The MyMemory code of each supported language; `None` where the
    /// provider does not speak the language.
    pub open spec fn mymemory_code(self) -> Option<Seq<char>> {
        match self {
            Language::English => Some("en"@),
            Language::Spanish => Some("es"@),
            Language::German => Some("de"@),
            Language::French => Some("fr"@),
            Language::Italian => Some("it"@),
            Language::Portuguese => Some("pt"@),
            Language::Dutch => Some("nl"@),
            Language::Polish => Some("pl"@),
            Language::Russian => Some("ru"@),
            Language::Ukrainian => Some("uk"@),
            Language::Chinese => Some("zh-CN"@),
            Language::Japanese => Some("ja"@),
            Language::Korean => Some("ko"@),
            Language::Arabic => Some("ar"@),
            Language::Hindi => Some("hi"@),
            Language::Vietnamese => Some("vi"@),
            _ => None,
        }
    }

    /// Projects the language into the vocabulary described by
    /// `Language::mymemory_code`, failing where it has no entry there.
    pub fn to_mymemory_str(&self) -> (r: Result<String, Error>)
        ensures
            r is Ok <==> self.mymemory_code() is Some,
            r matches Ok(s) ==> self.mymemory_code() == Some(s@),
    {
        match self {
            Language::English => Ok("en".to_owned()),
            Language::Spanish => Ok("es".to_owned()),
            Language::German => Ok("de".to_owned()),
            Language::French => Ok("fr".to_owned()),
            Language::Italian => Ok("it".to_owned()),
            Language::Portuguese => Ok("pt".to_owned()),
            Language::Dutch => Ok("nl".to_owned()),
            Language::Polish => Ok("pl".to_owned()),
            Language::Russian => Ok("ru".to_owned()),
            Language::Ukrainian => Ok("uk".to_owned()),
            Language::Chinese => Ok("zh-CN".to_owned()),
            Language::Japanese => Ok("ja".to_owned()),
            Language::Korean => Ok("ko".to_owned()),
            Language::Arabic => Ok("ar".to_owned()),
            Language::Hindi => Ok("hi".to_owned()),
            Language::Vietnamese => Ok("vi".to_owned()),
            _ => Err(Error::new_option("Translator does not support this language")),
        }
    }

    /// The Papago code of each supported language; `None` where the
    /// provider does not speak the language.
    pub open spec fn papago_code(self) -> Option<Seq<char>> {
        match self {
            Language::English => Some("en"@),
            Language::Spanish => Some("es"@),
            Language::German => Some("de"@),
            Language::French => Some("fr"@),
            Language::Italian => Some("it"@),
            Language::Portuguese => Some("pt"@),
            Language::Russian => Some("ru"@),
            Language::Chinese => Some("zh-CN"@),
            Language::Japanese => Some("ja"@),
            Language::Korean => Some("ko"@),
            Language::Hindi => Some("hi"@),
            Language::Vietnamese => Some("vi"@),
            _ => None,
        }
    }

    /// Projects the language into the vocabulary described by
    /// `Language::papago_code`, failing where it has no entry there.
    pub fn to_papago_str(&self) -> (r: Result<String, Error>)
        ensures
            r is Ok <==> self.papago_code() is Some,
            r matches Ok(s) ==> self.papago_code() == Some(s@),
    {
        match self {
            Language::English => Ok("en".to_owned()),
            Language::Spanish => Ok("es".to_owned()),
            Language::German => Ok("de".to_owned()),
            Language::French => Ok("fr".to_owned()),
            Language::Italian => Ok("it".to_owned()),
            Language::Portuguese => Ok("pt".to_owned()),
            Language::Russian => Ok("ru".to_owned()),
            Language::Chinese => Ok("zh-CN".to_owned()),
            Language::Japanese => Ok("ja".to_owned()),
            Language::Korean => Ok("ko".to_owned()),
            Language::Hindi => Ok("hi".to_owned()),
            Language::Vietnamese => Ok("vi".to_owned()),
            _ => Err(Error::new_option("Translator does not support this language")),
        }
    }

    /// The Youdao code of each supported language; `None` where the
    /// provider does not speak the language.
    pub open spec fn youdao_code(self) -> Option<Seq<char>> {
        match self {
            Language::English => Some("en"@),
            Language::Spanish => Some("es"@),
            Language::German => Some("de"@),
            Language::French => Some("fr"@),
            Language::Italian => Some("it"@),
            Language::Portuguese => Some("pt"@),
            Language::Dutch => Some("nl"@),
            Language::Russian => Some("ru"@),
            Language::Chinese => Some("zh-CHS"@),
            Language::Japanese => Some("ja"@),
            Language::Korean => Some("ko"@),
            Language::Arabic => Some("ar"@),
            Language::Hindi => Some("hi"@),
            Language::Vietnamese => Some("vi"@),
            _ => None,
        }
    }

    /// Projects the language into the vocabulary described by
    /// `Language::youdao_code`, failing where it has no entry there.
    pub fn to_youdao_str(&self) -> (r: Result<String, Error>)
        ensures
            r is Ok <==> self.youdao_code() is Some,
            r matches Ok(s) ==> self.youdao_code() == Some(s@),
    {
        match self {
            Language::English => Ok("en".to_owned()),
            Language::Spanish => Ok("es".to_owned()),
            Language::German => Ok("de".to_owned()),
            Language::French => Ok("fr".to_owned()),
            Language::Italian => Ok("it".to_owned()),
            Language::Portuguese => Ok("pt".to_owned()),
            Language::Dutch => Ok("nl".to_owned()),
            Language::Russian => Ok("ru".to_owned()),
            Language::Chinese => Ok("zh-CHS".to_owned()),
            Language::Japanese => Ok("ja".to_owned()),
            Language::Korean => Ok("ko".to_owned()),
            Language::Arabic => Ok("ar".to_owned()),
            Language::Hindi => Ok("hi".to_owned()),
            Language::Vietnamese => Ok("vi".to_owned()),
            _ => Err(Error::new_option("Translator does not support this language")),
        }
    }

    /// The Baidu code of each supported language; `None` where the
    /// provider does not speak the language.
    pub open spec fn baidu_code(self) -> Option<Seq<char>> {
        match self {
            Language::English => Some("en"@),
            Language::Spanish => Some("spa"@),
            Language::German => Some("de"@),
            Language::French => Some("fra"@),
            Language::Italian => Some("it"@),
            Language::Portuguese => Some("pt"@),
            Language::Dutch => Some("nl"@),
            Language::Polish => Some("pl"@),
            Language::Russian => Some("ru"@),
            Language::Ukrainian => Some("ukr"@),
            Language::Chinese => Some("zh"@),
            Language::Japanese => Some("jp"@),
            Language::Korean => Some("kor"@),
            Language::Arabic => Some("ara"@),
            Language::Hindi => Some("hi"@),
            Language::Vietnamese => Some("vie"@),
            _ => None,
        }
    }

    /// Projects the language into the vocabulary described by
    /// `Language::baidu_code`, failing where it has no entry there.
    pub fn to_baidu_str(&self) -> (r: Result<String, Error>)
        ensures
            r is Ok <==> self.baidu_code() is Some,
            r matches Ok(s) ==> self.baidu_code() == Some(s@),
    {
        match self {
            Language::English => Ok("en".to_owned()),
            Language::Spanish => Ok("spa".to_owned()),
            Language::German => Ok("de".to_owned()),
            Language::French => Ok("fra".to_owned()),
            Language::Italian => Ok("it".to_owned()),
            Language::Portuguese => Ok("pt".to_owned()),
            Language::Dutch => Ok("nl".to_owned()),
            Language::Polish => Ok("pl".to_owned()),
            Language::Russian => Ok("ru".to_owned()),
            Language::Ukrainian => Ok("ukr".to_owned()),
            Language::Chinese => Ok("zh".to_owned()),
            Language::Japanese => Ok("jp".to_owned()),
            Language::Korean => Ok("kor".to_owned()),
            Language::Arabic => Ok("ara".to_owned()),
            Language::Hindi => Ok("hi".to_owned()),
            Language::Vietnamese => Ok("vie".to_owned()),
            _ => Err(Error::new_option("Translator does not support this language")),
        }
    }

    /// The NLLB code of each supported language; `None` where the
    /// provider does not speak the language.
    pub open spec fn nllb_code(self) -> Option<Seq<char>> {
        match self {
            Language::English => Some("eng_Latn"@),
            Language::Spanish => Some("spa_Latn"@),
            Language::German => Some("deu_Latn"@),
            Language::French => Some("fra_Latn"@),
            Language::Italian => Some("ita_Latn"@),
            Language::Portuguese => Some("por_Latn"@),
            Language::Dutch => Some("nld_Latn"@),
            Language::Polish => Some("pol_Latn"@),
            Language::Russian => Some("rus_Cyrl"@),
            Language::Ukrainian => Some("ukr_Cyrl"@),
            Language::Chinese => Some("zho_Hans"@),
            Language::Japanese => Some("jpn_Jpan"@),
            Language::Korean => Some("kor_Hang"@),
            Language::Arabic => Some("arb_Arab"@),
            Language::Hindi => Some("hin_Deva"@),
            Language::Vietnamese => Some("vie_Latn"@),
            _ => None,
        }
    }

    /// Projects the language into the vocabulary described by
    /// `Language::nllb_code`, failing where it has no entry there.
    pub fn to_nllb_str(&self) -> (r: Result<String, Error>)
        ensures
            r is Ok <==> self.nllb_code() is Some,
            r matches Ok(s) ==> self.nllb_code() == Some(s@),
    {
        match self {
            Language::English => Ok("eng_Latn".to_owned()),
            Language::Spanish => Ok("spa_Latn".to_owned()),
            Language::German => Ok("deu_Latn".to_owned()),
            Language::French => Ok("fra_Latn".to_owned()),
            Language::Italian => Ok("ita_Latn".to_owned()),
            Language::Portuguese => Ok("por_Latn".to_owned()),
            Language::Dutch => Ok("nld_Latn".to_owned()),
            Language::Polish => Ok("pol_Latn".to_owned()),
            Language::Russian => Ok("rus_Cyrl".to_owned()),
            Language::Ukrainian => Ok("ukr_Cyrl".to_owned()),
            Language::Chinese => Ok("zho_Hans".to_owned()),
            Language::Japanese => Ok("jpn_Jpan".to_owned()),
            Language::Korean => Ok("kor_Hang".to_owned()),
            Language::Arabic => Ok("arb_Arab".to_owned()),
            Language::Hindi => Ok("hin_Deva".to_owned()),
            Language::Vietnamese => Ok("vie_Latn".to_owned()),
            _ => Err(Error::new_option("Translator does not support this language")),
        }
    }

    /// The M2M100 code of each supported language; `None` where the
    /// provider does not speak the language.
    pub open spec fn m2m100_code(self) -> Option<Seq<char>> {
        match self {
            Language::English => Some("en"@),
            Language::Spanish => Some("es"@),
            Language::German => Some("de"@),
            Language::French => Some("fr"@),
            Language::Italian => Some("it"@),
            Language::Portuguese => Some("pt"@),
            Language::Dutch => Some("nl"@),
            Language::Polish => Some("pl"@),
            Language::Russian => Some("ru"@),
            Language::Ukrainian => Some("uk"@),
            Language::Chinese => Some("zh"@),
            Language::Japanese => Some("ja"@),
            Language::Korean => Some("ko"@),
            Language::Arabic => Some("ar"@),
            Language::Hindi => Some("hi"@),
            Language::Vietnamese => Some("vi"@),
            _ => None,
        }
    }

    /// Projects the language into the vocabulary described by
    /// `Language::m2m100_code`, failing where it has no entry there.
    pub fn to_m2m100_str(&self) -> (r: Result<String, Error>)
        ensures
            r is Ok <==> self.m2m100_code() is Some,
            r matches Ok(s) ==> self.m2m100_code() == Some(s@),
    {
        match self {
            Language::English => Ok("en".to_owned()),
            Language::Spanish => Ok("es".to_owned()),
            Language::German => Ok("de".to_owned()),
            Language::French => Ok("fr".to_owned()),
            Language::Italian => Ok("it".to_owned()),
            Language::Portuguese => Ok("pt".to_owned()),
            Language::Dutch => Ok("nl".to_owned()),
            Language::Polish => Ok("pl".to_owned()),
            Language::Russian => Ok("ru".to_owned()),
            Language::Ukrainian => Ok("uk".to_owned()),
            Language::Chinese => Ok("zh".to_owned()),
            Language::Japanese => Ok("ja".to_owned()),
            Language::Korean => Ok("ko".to_owned()),
            Language::Arabic => Ok("ar".to_owned()),
            Language::Hindi => Ok("hi".to_owned()),
            Language::Vietnamese => Ok("vi".to_owned()),
            _ => Err(Error::new_option("Translator does not support this language")),
        }
    }

    /// The JParaCrawl code of each supported language; `None` where the
    /// provider does not speak the language.
    pub open spec fn jparacrawl_code(self) -> Option<Seq<char>> {
        match self {
            Language::English => Some("en"@),
            Language::Japanese => Some("ja"@),
            _ => None,
        }
    }

    /// Projects the language into the vocabulary described by
    /// `Language::jparacrawl_code`, failing where it has no entry there.
    pub fn to_jparacrawl_str(&self) -> (r: Result<String, Error>)
        ensures
            r is Ok <==> self.jparacrawl_code() is Some,
            r matches Ok(s) ==> self.jparacrawl_code() == Some(s@),
    {
        match self {
            Language::English => Ok("en".to_owned()),
            Language::Japanese => Ok("ja".to_owned()),
            _ => Err(Error::new_option("Translator does not support this language")),
        }
    }

    /// The Sugoi code of each supported language; `None` where the
    /// provider does not speak the language.
    pub open spec fn sugoi_code(self) -> Option<Seq<char>> {
        match self {
            Language::English => Some("en"@),
            Language::Japanese => Some("ja"@),
            _ => None,
        }
    }

    /// Projects the language into the vocabulary described by
    /// `Language::sugoi_code`, failing where it has no entry there.
    pub fn to_sugoi_str(&self) -> (r: Result<String, Error>)
        ensures
            r is Ok <==> self.sugoi_code() is Some,
            r matches Ok(s) ==> self.sugoi_code() == Some(s@),
    {
        match self {
            Language::English => Ok("en".to_owned()),
            Language::Japanese => Ok("ja".to_owned()),
            _ => Err(Error::new_option("Translator does not support this language")),
        }
    }
}

} // verus!

use translators::detector::Detectors;
use translators::error::Error;
use translators::languages::Language;
use translators::translators::chainer::{LangTable, TranslatorInfo, TranslatorSelectorInfo};
use translators::translators::tokens::Tokens;
use translators::translators::{Translator, Translators};

fn info(t: Translator, to: Language) -> TranslatorInfo {
    TranslatorInfo { translator: t, to }
}

fn cycle_message(e: &Error) -> bool {
    match e {
        Error::Text(t) => t.message == "Translator loop detected" && t.error.is_none(),
        _ => false,
    }
}

#[test]
fn self_loop_is_rejected_with_cycle_error() {
    let mut map: LangTable<TranslatorInfo> = LangTable::new();
    map.insert(Language::German, info(Translator::Google, Language::German));
    let selector = TranslatorSelectorInfo::SelectiveChain(
        map,
        info(Translator::Google, Language::English),
    );
    let r = Translators::new(None, selector, None, None, Detectors::Whatlang);
    match r {
        Err(e) => assert!(cycle_message(&e)),
        Ok(_) => panic!("a self-routing entry must be rejected"),
    }
}

#[test]
fn two_step_loop_is_rejected_with_cycle_error() {
    let mut map: LangTable<TranslatorInfo> = LangTable::new();
    map.insert(Language::German, info(Translator::Google, Language::French));
    map.insert(Language::French, info(Translator::Google, Language::German));
    let selector = TranslatorSelectorInfo::SelectiveChain(
        map,
        info(Translator::Google, Language::English),
    );
    let r = Translators::new(None, selector, None, None, Detectors::Whatlang);
    match r {
        Err(e) => assert!(cycle_message(&e)),
        Ok(_) => panic!("a routing loop must be rejected"),
    }
}

#[test]
fn acyclic_selective_chain_resolves() {
    let mut map: LangTable<TranslatorInfo> = LangTable::new();
    map.insert(Language::German, info(Translator::Google, Language::French));
    map.insert(Language::French, info(Translator::Google, Language::English));
    let selector = TranslatorSelectorInfo::SelectiveChain(
        map,
        info(Translator::Google, Language::English),
    );
    let r = Translators::new(None, selector, None, None, Detectors::Whatlang);
    assert!(r.is_ok());
}

#[test]
fn unsupported_pair_fails_construction() {
    // DeepL has no code for Vietnamese in the library's vocabulary.
    let mut map: LangTable<Translator> = LangTable::new();
    map.insert(Language::Vietnamese, Translator::Deepl);
    let selector = TranslatorSelectorInfo::Selective(
        map,
        info(Translator::Google, Language::English),
    );
    let r = Translators::new(None, selector, None, None, Detectors::Whatlang);
    assert!(r.is_err());
}

#[test]
fn unsupported_chain_target_fails_construction() {
    let selector = TranslatorSelectorInfo::Chain(vec![
        info(
            Translator::JParaCrawl(
                translators::translators::offline::ctranslate2::Device::CPU,
                translators::translators::offline::ModelFormat::Compact,
                translators::translators::offline::jparacrawl::JParaCrawlModelType::Big,
            ),
            Language::Spanish,
        ),
    ]);
    let r = Translators::new(None, selector, None, None, Detectors::Whatlang);
    assert!(r.is_err());
}

#[test]
fn missing_token_fails_construction() {
    let selector = TranslatorSelectorInfo::Chain(vec![info(Translator::Deepl, Language::English)]);
    let r = Translators::new(
        Some(Tokens::empty()),
        selector,
        None,
        None,
        Detectors::Whatlang,
    );
    assert!(r.is_err());
}

#[test]
fn token_backed_chain_resolves() {
    let mut tokens = Tokens::empty();
    tokens.deepl_token = Some("dummy-token".to_string());
    let selector = TranslatorSelectorInfo::Chain(vec![info(Translator::Deepl, Language::English)]);
    let r = Translators::new(Some(tokens), selector, None, None, Detectors::Whatlang);
    assert!(r.is_ok());
}

#[test]
fn selective_fallback_routes_to_default() {
    let mut map: LangTable<Translator> = LangTable::new();
    map.insert(Language::Chinese, Translator::Papago);
    let selector = TranslatorSelectorInfo::Selective(
        map,
        info(Translator::Google, Language::English),
    );
    let v = Translators::new(None, selector, None, None, Detectors::Whatlang).unwrap();
    // German has no explicit entry, so the default serves the request.
    let st = v
        .translate_request("Hallo".to_string(), Some(Language::German), vec![])
        .unwrap();
    assert_eq!(st.hops.len(), 1);
    assert_eq!(st.hops[0].translator, Translator::Google);
    assert_eq!(st.hops[0].to, Language::English);
}

#[test]
fn selective_explicit_entry_is_used() {
    let mut map: LangTable<Translator> = LangTable::new();
    map.insert(Language::Chinese, Translator::Papago);
    let selector = TranslatorSelectorInfo::Selective(
        map,
        info(Translator::Google, Language::English),
    );
    let v = Translators::new(None, selector, None, None, Detectors::Whatlang).unwrap();
    let st = v
        .translate_request("Hallo".to_string(), Some(Language::Chinese), vec![])
        .unwrap();
    assert_eq!(st.hops.len(), 1);
    assert_eq!(st.hops[0].translator, Translator::Papago);
    assert_eq!(st.hops[0].to, Language::English);
}

#[test]
fn create_single_is_a_one_entry_list() {
    let s = TranslatorSelectorInfo::create_single(info(Translator::Google, Language::English));
    match s {
        TranslatorSelectorInfo::List(v) => assert_eq!(v.len(), 1),
        _ => panic!("expected a list"),
    }
}

#[test]
fn empty_chain_yields_no_translator_found() {
    let selector = TranslatorSelectorInfo::Chain(vec![]);
    let v = Translators::new(None, selector, None, None, Detectors::Whatlang).unwrap();
    let r = v.translate_request("Hallo".to_string(), Some(Language::German), vec![]);
    match r {
        Err(Error::Text(t)) => assert_eq!(t.message, "No translator found"),
        _ => panic!("an empty path must fail before any work"),
    }
}

#[test]
fn empty_selective_map_still_checks_the_default() {
    // JParaCrawl speaks only English and Japanese, so the default pair
    // fails even though the map has no entry.
    let map: LangTable<Translator> = LangTable::new();
    let selector = TranslatorSelectorInfo::Selective(
        map,
        info(
            Translator::JParaCrawl(
                translators::translators::offline::ctranslate2::Device::CPU,
                translators::translators::offline::ModelFormat::Compact,
                translators::translators::offline::jparacrawl::JParaCrawlModelType::Big,
            ),
            Language::Spanish,
        ),
    );
    let r = Translators::new(None, selector, None, None, Detectors::Whatlang);
    assert!(r.is_err());
}

#[test]
fn selective_entry_is_checked_against_the_shared_target() {
    // DeepL speaks German (the key) but not Vietnamese, the shared
    // target every entry is rewritten to.
    let mut map: LangTable<Translator> = LangTable::new();
    map.insert(Language::German, Translator::Deepl);
    let selector = TranslatorSelectorInfo::Selective(
        map,
        info(Translator::Google, Language::Vietnamese),
    );
    let r = Translators::new(None, selector, None, None, Detectors::Whatlang);
    assert!(r.is_err());
}

#[test]
fn missing_deepl_credential_is_a_missing_token_error() {
    let selector = TranslatorSelectorInfo::Chain(vec![info(Translator::Deepl, Language::English)]);
    let r = Translators::new(
        Some(Tokens::empty()),
        selector,
        None,
        None,
        Detectors::Whatlang,
    );
    match r {
        Err(Error::MissingToken(m)) => {
            assert_eq!(m, "Missing token: deepl_token. Add token to .env");
        }
        _ => panic!("an absent credential must raise the distinct missing-token error"),
    }
}

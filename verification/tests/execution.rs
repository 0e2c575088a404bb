use translators::detector::Detectors;
use translators::error::Error;
use translators::languages::Language;
use translators::translators::chainer::{TranslatorInfo, TranslatorSelectorInfo};
use translators::translators::translator_structure::TranslationVecOutput;
use translators::translators::{Translator, Translators};

fn info(t: Translator, to: Language) -> TranslatorInfo {
    TranslatorInfo { translator: t, to }
}

fn out(texts: &[&str], lang: Language) -> TranslationVecOutput {
    TranslationVecOutput {
        text: texts.iter().map(|s| s.to_string()).collect(),
        lang,
    }
}

fn fetch_err() -> Error {
    Error::Fetch("connection reset".to_string())
}

#[test]
fn chain_end_to_end_orders_records() {
    let selector = TranslatorSelectorInfo::Chain(vec![
        info(Translator::Google, Language::Spanish),
        info(Translator::Bing, Language::English),
    ]);
    let v = Translators::new(None, selector, None, None, Detectors::Whatlang).unwrap();
    let mut st = v
        .translate_request("Hello world".to_string(), None, vec![])
        .unwrap();

    let c1 = st.next_call().unwrap().unwrap();
    assert_eq!(c1.translator, Translator::Google);
    assert_eq!(c1.to, Language::Spanish);
    assert_eq!(c1.query, vec!["Hello world".to_string()]);
    assert_eq!(c1.from, None);
    assert!(st.apply(Ok(out(&["Hola mundo"], Language::Spanish))).unwrap());

    let c2 = st.next_call().unwrap().unwrap();
    assert_eq!(c2.translator, Translator::Bing);
    assert_eq!(c2.to, Language::English);
    assert_eq!(c2.query, vec!["Hola mundo".to_string()]);
    assert!(st.apply(Ok(out(&["Hello world"], Language::English))).unwrap());

    assert!(st.next_call().unwrap().is_none());
    let records = st.finish();
    assert_eq!(records.len(), 3);
    assert_eq!(records[0].text, vec!["Hello world".to_string()]);
    // The initial record's unknown language is backfilled with the first
    // concrete language produced.
    assert_eq!(records[0].lang, Language::Spanish);
    assert_eq!(records[1].text, vec!["Hola mundo".to_string()]);
    assert_eq!(records[1].lang, Language::Spanish);
    assert_eq!(records[2].text, vec!["Hello world".to_string()]);
    assert_eq!(records[2].lang, Language::English);
}

#[test]
fn retry_succeeds_on_attempt_within_budget() {
    let selector = TranslatorSelectorInfo::Chain(vec![info(Translator::Google, Language::Spanish)]);
    let v = Translators::new(None, selector, None, Some(3), Detectors::Whatlang).unwrap();
    let mut st = v
        .translate_request("Hello".to_string(), None, vec![])
        .unwrap();
    let _ = st.next_call().unwrap().unwrap();
    // Two failures, then success on the third of three allowed attempts.
    assert_eq!(st.apply(Err(fetch_err())).unwrap(), false);
    assert_eq!(st.apply(Err(fetch_err())).unwrap(), false);
    assert!(st.apply(Ok(out(&["Hola"], Language::Spanish))).unwrap());
    assert!(st.next_call().unwrap().is_none());
    let records = st.finish();
    assert_eq!(records[1].text, vec!["Hola".to_string()]);
}

#[test]
fn retry_exhaustion_returns_the_terminal_error() {
    let selector = TranslatorSelectorInfo::Chain(vec![info(Translator::Google, Language::Spanish)]);
    let v = Translators::new(None, selector, None, Some(2), Detectors::Whatlang).unwrap();
    let mut st = v
        .translate_request("Hello".to_string(), None, vec![])
        .unwrap();
    let _ = st.next_call().unwrap().unwrap();
    assert_eq!(st.apply(Err(fetch_err())).unwrap(), false);
    match st.apply(Err(fetch_err())) {
        Err(e) => assert_eq!(e, fetch_err()),
        Ok(_) => panic!("the second failure of two attempts must be terminal"),
    }
}

#[test]
fn disabled_retry_means_one_attempt() {
    let selector = TranslatorSelectorInfo::Chain(vec![info(Translator::Google, Language::Spanish)]);
    let v = Translators::new(None, selector, None, None, Detectors::Whatlang).unwrap();
    let mut st = v
        .translate_request("Hello".to_string(), None, vec![])
        .unwrap();
    let _ = st.next_call().unwrap().unwrap();
    assert!(st.apply(Err(fetch_err())).is_err());
}

#[test]
fn list_output_keeps_configuration_order() {
    let selector = TranslatorSelectorInfo::List(vec![
        info(Translator::Google, Language::Spanish),
        info(Translator::Bing, Language::French),
        info(Translator::Papago, Language::Korean),
    ]);
    let v = Translators::new(None, selector, None, None, Detectors::Whatlang).unwrap();
    let mut st = v
        .translate_vec_request(
            vec!["Hello".to_string()],
            Some(Language::English),
            vec![],
        )
        .unwrap();
    assert!(st.list_mode);
    // Completion order reversed against configuration order.
    let c2 = st.list_call(2);
    assert_eq!(c2.translator, Translator::Papago);
    assert!(st.apply_at(2, Ok(out(&["annyeong"], Language::Korean))).unwrap());
    let c1 = st.list_call(1);
    assert_eq!(c1.query, vec!["Hello".to_string()]);
    assert!(st.apply_at(1, Ok(out(&["Bonjour"], Language::French))).unwrap());
    let c0 = st.list_call(0);
    assert_eq!(c0.from, Some(Language::English));
    assert!(st.apply_at(0, Ok(out(&["Hola"], Language::Spanish))).unwrap());
    assert!(st.list_pending().is_none());
    let records = st.finish_list().unwrap();
    assert_eq!(records.len(), 4);
    assert_eq!(records[0].text, vec!["Hello".to_string()]);
    assert_eq!(records[1].text, vec!["Hola".to_string()]);
    assert_eq!(records[2].text, vec!["Bonjour".to_string()]);
    assert_eq!(records[3].text, vec!["annyeong".to_string()]);
}

#[test]
fn list_failure_surfaces_in_configuration_order() {
    let selector = TranslatorSelectorInfo::List(vec![
        info(Translator::Google, Language::Spanish),
        info(Translator::Bing, Language::French),
    ]);
    let v = Translators::new(None, selector, None, None, Detectors::Whatlang).unwrap();
    let mut st = v
        .translate_vec_request(
            vec!["Hello".to_string()],
            Some(Language::English),
            vec![],
        )
        .unwrap();
    assert!(st.apply_at(1, Ok(out(&["Bonjour"], Language::French))).unwrap());
    // One allowed attempt: the failure settles in slot 0.
    assert!(st.apply_at(0, Err(fetch_err())).unwrap());
    assert!(st.list_pending().is_none());
    match st.finish_list() {
        Err(e) => assert_eq!(e, fetch_err()),
        Ok(_) => panic!("a failed slot must fail the whole list request"),
    }
}

#[test]
fn mymemory_hop_detects_the_pending_language() {
    let selector = TranslatorSelectorInfo::Chain(vec![info(
        Translator::MyMemory,
        Language::German,
    )]);
    let v = Translators::new(None, selector, None, None, Detectors::Whatlang).unwrap();
    let mut st = v
        .translate_request(
            "This is a longer English sentence that the detector can classify.".to_string(),
            None,
            vec![],
        )
        .unwrap();
    let c = st.next_call().unwrap().unwrap();
    assert_eq!(c.from, Some(Language::English));
}

#[test]
fn vec_request_keeps_provider_language() {
    let selector = TranslatorSelectorInfo::Chain(vec![info(Translator::Google, Language::Spanish)]);
    let v = Translators::new(None, selector, None, None, Detectors::Whatlang).unwrap();
    let mut st = v
        .translate_vec_request(
            vec!["Hello".to_string(), "World".to_string()],
            None,
            vec![],
        )
        .unwrap();
    let c = st.next_call().unwrap().unwrap();
    assert_eq!(c.query.len(), 2);
    // Batched hops keep the language the provider reported.
    assert!(st.apply(Ok(out(&["Hola", "Mundo"], Language::English))).unwrap());
    let records = st.finish();
    assert_eq!(records[1].lang, Language::English);
    // The initial record is backfilled from the provider's report.
    assert_eq!(records[0].lang, Language::English);
}

use translators::generator::Records;
use translators::languages::Language;
use translators::translators::api::deepl::DeeplTranslator;
use translators::translators::api::google::GoogleRequest;
use translators::translators::api::libretranslate::LibreTranslateTranslator;
use translators::translators::api::mymemory::MyMemoryTranslator;
use translators::translators::api::youdao::YouDaoApiTranslator;
use translators::translators::scrape::baidu::BaiduTranslator;
use translators::translators::scrape::bing::BingTranslator;
use translators::translators::scrape::google::GoogleTranslator;
use translators::translators::scrape::papago::PapagoTranslator;
use translators::translators::scrape::youdao::YoudaoTranslator;
use translators::translators::tokens::Tokens;
use std::str::FromStr;
use translators::translators::api::chatgpt::ChatGPTModel;
use translators::translators::dev::get_csv_errors;
use translators::translators::offline::ctranslate2::Device;
use translators::translators::offline::m2m100::M2M100ModelType;
use translators::translators::offline::ModelFormat;
use translators::translators::{ConversationStyleClone, Translator, TranslatorKind};

#[test]
fn language_codes_project_per_provider() {
    assert_eq!(Language::German.to_deepl_str().unwrap(), "de");
    assert_eq!(Language::Chinese.to_google_str().unwrap(), "zh-CN");
    assert_eq!(Language::Chinese.to_bing_str().unwrap(), "zh-Hans");
    assert_eq!(Language::Spanish.to_baidu_str().unwrap(), "spa");
    assert_eq!(Language::Japanese.to_baidu_str().unwrap(), "jp");
    assert_eq!(Language::Korean.to_nllb_str().unwrap(), "kor_Hang");
    assert_eq!(Language::English.to_name_str().unwrap(), "English");
    assert!(Language::Vietnamese.to_deepl_str().is_err());
    assert!(Language::Unknown.to_google_str().is_err());
    assert!(Language::German.to_jparacrawl_str().is_err());
}

#[test]
fn iso_codes_map_into_the_vocabulary() {
    assert_eq!(Language::from_iso693_str("deu"), Language::German);
    assert_eq!(Language::from_iso693_str("cmn"), Language::Chinese);
    assert_eq!(Language::from_iso693_str("xyz"), Language::Unknown);
}

#[test]
fn provider_catalog_partitions() {
    assert_eq!(Translator::get_all().len(), 14);
    assert_eq!(Translator::get_online().len(), 10);
    assert_eq!(Translator::get_offline().len(), 4);
    assert_eq!(Translator::get_scraped().len(), 3);
    assert_eq!(Translator::get_api().len(), 6);
    let names = Translator::convert_to_str(Translator::get_scraped());
    assert_eq!(names, vec!["Google", "Bing", "Papago"]);
}

#[test]
fn available_apis_follow_the_token_set() {
    let mut tokens = Tokens::empty();
    assert!(Translator::get_api_available(&tokens).is_empty());
    tokens.deepl_token = Some("dummy-token".to_string());
    tokens.libre_token = Some("dummy-token".to_string());
    let available = Translator::get_api_available(&tokens);
    assert_eq!(available.len(), 2);
    assert_eq!(available[0], Translator::Deepl);
    assert_eq!(available[1], Translator::LibreTranslate);
}

#[test]
fn translator_kind_flag() {
    assert_eq!(TranslatorKind::new_api(true), TranslatorKind::Api);
    assert_eq!(TranslatorKind::new_api(false), TranslatorKind::Scrape);
}

#[test]
fn provider_endpoints_are_fixed() {
    assert_eq!(DeeplTranslator::new("dummy-token").host, "https://api-free.deepl.com/v2/translate");
    assert_eq!(MyMemoryTranslator::new().input_limit, 500);
    assert_eq!(
        LibreTranslateTranslator::new(&None).host,
        "https://translate.argosopentech.com"
    );
    assert_eq!(GoogleTranslator::new().host, "https://translate.google.com");
    assert_eq!(PapagoTranslator::new().host, "https://papago.naver.com");
    assert_eq!(YoudaoTranslator::new().home, "/product-fanyi-text.s");
    assert_eq!(BaiduTranslator::new().api_host, "https://fanyi.baidu.com/transapi");
    let y = YouDaoApiTranslator::new("k", "s");
    assert_eq!(y.app_key, "k");
    let bing = BingTranslator::with_session(17, "tok", "ig");
    assert_eq!(bing.key, 17);
    assert_eq!(bing.iid, "translator.5028");
    let req = GoogleRequest::new("dummy-token", None, "es".to_string(), vec!["hi".to_string()]);
    assert_eq!(req.format, "text");
    assert_eq!(req.model, Some("base".to_string()));
}

#[test]
fn records_add_line_matches_rows_by_existing_codes() {
    let mut records = Records {
        headers: vec!["name".to_string(), "6391".to_string()],
        records: vec![
            vec![Some("German".to_string()), Some("de".to_string())],
            vec![Some("French".to_string()), Some("fr".to_string())],
        ],
    };
    records.add_line("prov", &["fr".to_string(), "xx".to_string()]);
    assert_eq!(records.headers.last().unwrap(), "prov");
    assert_eq!(records.records[0].last().unwrap(), &None);
    assert_eq!(records.records[1].last().unwrap(), &Some("fr".to_string()));
}

#[test]
fn format_to_enum_builds_identifiers() {
    assert_eq!(Records::make_ascii_titlecase("hello"), "Hello");
    assert_eq!(Records::make_ascii_titlecase(""), "");
    assert_eq!(Records::format_to_enum("chinese traditional"), "ChineseTraditional");
    assert_eq!(Records::format_to_enum("german"), "German");
}

#[test]
fn parse_str_reads_provider_references() {
    assert_eq!(Translator::parse_str("deepl").unwrap(), Translator::Deepl);
    assert_eq!(Translator::parse_str("google").unwrap(), Translator::Google);
    assert_eq!(
        Translator::parse_str("youdao true").unwrap(),
        Translator::Youdao(TranslatorKind::Api)
    );
    assert_eq!(
        Translator::parse_str("baidu false").unwrap(),
        Translator::Baidu(TranslatorKind::Scrape)
    );
    assert_eq!(
        Translator::parse_str("m2m100 true Small418m").unwrap(),
        Translator::M2M100(Device::CUDA, ModelFormat::Compact, M2M100ModelType::Small418m)
    );
    assert_eq!(
        Translator::parse_str("sugoi false").unwrap(),
        Translator::Sugoi(Device::CPU, ModelFormat::Compact)
    );
    match Translator::parse_str("edgegpt Balanced cookie-path").unwrap() {
        Translator::EdgeGPT(style, auth) => {
            assert_eq!(style, ConversationStyleClone::Balanced);
            assert_eq!(auth, "cookie-path");
        }
        _ => panic!("expected the generative scrape provider"),
    }
    match Translator::parse_str("chatgpt GPT4 70 1500").unwrap() {
        Translator::ChatGPT(model, _, _, temp, wait) => {
            assert_eq!(model, ChatGPTModel::GPT4);
            assert_eq!(temp, 70);
            assert_eq!(wait, 1500);
        }
        _ => panic!("expected the generative provider"),
    }
    assert!(Translator::parse_str("unknown").is_err());
    assert!(Translator::parse_str("youdao maybe").is_err());
    assert!(Translator::parse_str("chatgpt GPT4").is_err());
    assert!(Translator::from_str("bing").is_ok());
}

#[test]
fn csv_errors_compare_both_directions() {
    let fetched = vec!["de".to_string(), "fr".to_string(), "xx".to_string()];
    let supported = vec!["de".to_string(), "es".to_string(), "fr".to_string()];
    let (not_in_table, not_offered) = get_csv_errors(&fetched, &supported);
    assert_eq!(not_in_table, vec!["xx".to_string()]);
    assert_eq!(not_offered, vec!["es".to_string()]);
}

#[test]
fn format_data_collects_column_pairs() {
    let records = Records {
        headers: vec!["name".to_string(), "deepl".to_string()],
        records: vec![
            vec![Some("german".to_string()), Some("de".to_string())],
            vec![Some("viet namese".to_string()), None],
        ],
    };
    let data = records.format_data();
    assert_eq!(data.len(), 2);
    assert_eq!(data[0].0, "name");
    assert_eq!(
        data[0].1,
        vec![
            ("German".to_string(), "german".to_string()),
            ("VietNamese".to_string(), "viet namese".to_string())
        ]
    );
    assert_eq!(data[1].0, "deepl");
    assert_eq!(data[1].1, vec![("German".to_string(), "de".to_string())]);
}

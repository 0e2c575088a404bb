use translators::languages::Language;
use translators::translators::offline::ctranslate2::Device;
use translators::translators::offline::jparacrawl::{JParaCrawlModelType, JParaCrawlTranslator};
use translators::translators::offline::jparacrawlbig::JParaCrawlBigTranslator;
use translators::translators::offline::m2m100::{
    strip_target_prefix, M2M100ModelType, M2M100Translator,
};
use translators::translators::offline::m2m100_12b::M2M100_12BTranslator;
use translators::translators::offline::nllb::{NllbModelType, NllbTranslator};
use translators::translators::offline::sugoi::SugoiTranslator;
use translators::translators::offline::ModelFormat;

#[test]
fn device_and_format_flags() {
    assert_eq!(Device::gpu(true), Device::CUDA);
    assert_eq!(Device::gpu(false), Device::CPU);
    assert!(Device::CUDA.is_cuda());
    assert_eq!(Device::auto(), Device::CPU);
    assert_eq!(Device::CUDA.name(), "cuda");
    assert!(ModelFormat::Compact.is_compressed());
    assert!(!ModelFormat::Normal.is_compressed());
}

#[test]
fn model_identifiers_are_exact() {
    assert_eq!(
        JParaCrawlTranslator::get_ident(
            &Device::CPU,
            &ModelFormat::Compact,
            &JParaCrawlModelType::Big
        ),
        "jparacrawl-big-ct2-int8"
    );
    assert_eq!(
        JParaCrawlTranslator::get_ident(
            &Device::CUDA,
            &ModelFormat::Normal,
            &JParaCrawlModelType::Small
        ),
        "jparacrawl-small-ct2"
    );
    assert_eq!(
        M2M100Translator::get_model_name(
            &Device::CPU,
            &ModelFormat::Compact,
            &M2M100ModelType::Small418m
        ),
        "m2m_100_418m_ct2_int8"
    );
    assert_eq!(
        NllbTranslator::get_ident(
            &Device::CUDA,
            &ModelFormat::Compact,
            &NllbModelType::DistilledBig1_3B
        ),
        "nllb-200-distilled-1.3B-ct2-float16"
    );
    assert_eq!(
        SugoiTranslator::get_model_name(&Device::CPU, &ModelFormat::Compact),
        "sugoi-ja-en-ct2-int8"
    );
}

#[test]
fn jparacrawl_direction_rules() {
    assert_eq!(
        JParaCrawlTranslator::get_from(None, &Language::English).unwrap(),
        Language::Japanese
    );
    assert_eq!(
        JParaCrawlTranslator::get_from(Some(Language::English), &Language::Japanese).unwrap(),
        Language::English
    );
    assert!(JParaCrawlTranslator::get_from(Some(Language::German), &Language::English).is_err());
    assert!(JParaCrawlTranslator::get_from(None, &Language::Spanish).is_err());
}

#[test]
fn sugoi_direction_rules() {
    assert_eq!(
        SugoiTranslator::get_from(None, &Language::English).unwrap(),
        Language::Japanese
    );
    assert!(SugoiTranslator::get_from(Some(Language::English), &Language::Japanese).is_err());
}

#[test]
fn translator_model_paths() {
    assert_eq!(
        JParaCrawlTranslator::get_translator_model_path(
            "models",
            Language::English,
            &Language::Japanese
        )
        .unwrap(),
        "models/en-ja"
    );
    assert_eq!(
        JParaCrawlBigTranslator::get_translator_model_path(
            "models",
            Language::Japanese,
            &Language::English
        )
        .unwrap(),
        "models/big-ja-en"
    );
    assert!(JParaCrawlTranslator::get_translator_model_path(
        "models",
        Language::German,
        &Language::English
    )
    .is_err());
}

#[test]
fn target_prefixes_repeat_per_query() {
    let p = M2M100Translator::generate_target_prefix("es", 3);
    assert_eq!(p, vec!["__es__", "__es__", "__es__"]);
    let n = NllbTranslator::generate_target_prefix("spa_Latn", 2);
    assert_eq!(n, vec!["spa_Latn", "spa_Latn"]);
    let rows = M2M100_12BTranslator::generate_target_prefix("de", 2);
    assert_eq!(rows, vec![vec!["__de__"], vec!["__de__"]]);
}

#[test]
fn nllb_framing_adds_source_and_terminator() {
    let framed = NllbTranslator::tokenize(
        Some(Language::English),
        vec![vec!["tok1".to_string(), "tok2".to_string()]],
    )
    .unwrap();
    assert_eq!(framed, vec![vec!["eng_Latn", "tok1", "tok2", "</s>"]]);
    let unframed = NllbTranslator::tokenize(None, vec![vec!["tok".to_string()]]).unwrap();
    assert_eq!(unframed, vec![vec!["", "tok", "</s>"]]);
}

#[test]
fn strip_target_prefix_drops_the_echoed_token() {
    let stripped =
        strip_target_prefix(&vec!["__es__ Hola".to_string()], "__es__ ".chars().count()).unwrap();
    assert_eq!(stripped, vec!["Hola"]);
    assert!(strip_target_prefix(&vec!["x".to_string()], 5).is_err());
}

#[test]
fn sugoi_post_detokenize_regroups_and_restores() {
    let out = SugoiTranslator::post_detokenize(
        vec!["first part@".to_string(), "second".to_string(), "third".to_string()],
        vec![2, 1],
    );
    assert_eq!(out, vec!["first part. second", "third"]);
    let cleaned = SugoiTranslator::post_detokenize(vec!["a<unk>b\u{2581}c".to_string()], vec![1]);
    assert_eq!(cleaned, vec!["ab c"]);
}

#[test]
fn sugoi_pre_tokenize_counts_chunks_per_query() {
    let (chunks, sizes) = SugoiTranslator::pre_tokenize(&[
        "One. Two. Three. Four. Five. Six.".to_string(),
        "Short".to_string(),
    ]);
    assert_eq!(sizes.len(), 2);
    assert_eq!(sizes.iter().sum::<usize>(), chunks.len());
    // Dots are shielded so the model keeps them.
    assert!(chunks.iter().all(|c| !c.contains('.')));
}

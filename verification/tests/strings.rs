use translators::error::Error;
use translators::languages::Language;
use translators::translators::api::baidu::{BaiduApiError, Form};
use translators::translators::api::chatgpt::{ChatGPTModel, ChatGPTTranslator};
use translators::translators::api::youdao::{truncate, YouDaoApiTranslator};
use translators::translators::chatbot::{generate_query, process_result};
use translators::translators::helpers::{input_limit_checker, option_error, usize_to_string};

#[test]
fn numbers_render_in_decimal() {
    assert_eq!(usize_to_string(0), "0");
    assert_eq!(usize_to_string(7), "7");
    assert_eq!(usize_to_string(305), "305");
}

#[test]
fn input_limit_checker_measures_bytes() {
    assert!(input_limit_checker("abcde", 5).is_ok());
    assert!(input_limit_checker("abcdef", 5).is_err());
}

#[test]
fn option_error_moves_the_error_out() {
    assert_eq!(option_error::<u32>(None).unwrap(), None);
    assert_eq!(option_error(Some(Ok(3u32))).unwrap(), Some(3));
    assert!(option_error::<u32>(Some(Err(Error::new_option("x")))).is_err());
}

#[test]
fn truncate_keeps_short_and_folds_long_queries() {
    assert_eq!(truncate("short text"), "short text");
    let long = "abcdefghijklmnopqrstuvwxyz";
    // Ten characters from each end around the decimal length.
    assert_eq!(truncate(long), "abcdefghij26qrstuvwxyz");
}

#[test]
fn generate_query_numbers_the_prompt() {
    let queries = vec!["Hello".to_string(), "World".to_string()];
    let q = generate_query(&queries, "Spanish", None).unwrap();
    assert_eq!(
        q,
        "Can you translate these sentences to Spanish? Please keep the numbering! \
         The output formatting should be the same as the input: \n1: Hello\n2: World"
    );
    let with_context = generate_query(&queries, "Spanish", Some("A letter")).unwrap();
    assert!(with_context.starts_with("A letter. Can you translate"));
}

#[test]
fn process_result_reads_numbered_lines() {
    let queries = vec!["Hello".to_string(), "World".to_string()];
    let out = process_result("1: Hola\n2: Mundo".to_string(), &queries).unwrap();
    assert_eq!(out.text, vec!["Hola".to_string(), "Mundo".to_string()]);
    assert_eq!(out.lang, Language::Unknown);
}

#[test]
fn process_result_lets_later_lines_replace_earlier_ones() {
    let queries = vec!["a".to_string(), "b".to_string()];
    let out = process_result("1: first\n1: second\n2: other".to_string(), &queries).unwrap();
    assert_eq!(out.text, vec!["second".to_string(), "other".to_string()]);
}

#[test]
fn process_result_rejects_wrong_counts_and_numbers() {
    let queries = vec!["a".to_string(), "b".to_string()];
    assert!(process_result("1: only one".to_string(), &queries).is_err());
    assert!(process_result("0: zero based\n1: x".to_string(), &queries).is_err());
    assert!(process_result("x: not a number\n1: x".to_string(), &queries).is_err());
    assert!(process_result("2: gap\n3: wrong keys".to_string(), &queries).is_err());
}

#[test]
fn chatgpt_config_picks_default_endpoints() {
    let t = ChatGPTTranslator::new(&ChatGPTModel::Gpt35Turbo, "dummy-token", "", "", 100, 0)
        .unwrap();
    assert_eq!(t.url, "https://api.openai.com/v1/chat/completions");
    assert_eq!(t.old_url, "https://api.openai.com/v1/completions");
    let p = ChatGPTTranslator::new(
        &ChatGPTModel::GPT4,
        "dummy-token",
        "https://proxy.example/v1",
        "",
        100,
        0,
    )
    .unwrap();
    assert_eq!(p.url, "https://proxy.example/v1");
}

#[test]
fn youdao_form_carries_the_signature_fields() {
    let t = YouDaoApiTranslator::new("dummy-token", "dummy-token");
    let form = t.build_text_translate_form(
        "Hello",
        "en".to_string(),
        "zh-CHS".to_string(),
        "salt-1",
        "1700000000",
    );
    assert_eq!(form.len(), 8);
    assert_eq!(form[0], ("q".to_string(), "Hello".to_string()));
    assert_eq!(form[5], ("signType".to_string(), "v3".to_string()));
    assert_eq!(form[7].0, "sign");
    // A hex digest of the signature scheme is 64 characters long.
    assert_eq!(form[7].1.len(), 64);
}

#[test]
fn baidu_form_signs_with_a_hex_digest() {
    let f = Form::new("dummy-token", "apple", "1435660288", "dummy-token", "en", "zh");
    assert_eq!(f.q, "apple");
    assert_eq!(f.from, "en");
    assert_eq!(f.to, "zh");
    assert_eq!(f.salt, "1435660288");
    assert_eq!(f.sign.len(), 32);
}

#[test]
fn baidu_error_codes_carry_advice() {
    let e = BaiduApiError {
        code: "54001".to_string(),
        msg: "sign error".to_string(),
        data: None,
    };
    assert!(e.solution().starts_with("Wrong signature."));
    let u = BaiduApiError {
        code: "99999".to_string(),
        msg: "?".to_string(),
        data: None,
    };
    assert_eq!(u.solution(), "unknown error");
}

#[test]
fn missing_token_error_names_the_token() {
    match Error::missing_token("youdao_key") {
        Error::MissingToken(m) => {
            assert_eq!(m, "Missing token: youdao_key. Add token to .env");
        }
        _ => panic!("expected a missing-token error"),
    }
}

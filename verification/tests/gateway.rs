use translation_bridge::error::AppError;
use translation_bridge::gateway::{
    authorize, authorized, choose_source, finish_translation, has_model, header_carries, model_languages,
    perform_translation, plan_translation, query_carries, split_pair_name, TranslationPlan,
};
use translation_bridge::language::LanguageTag;

fn lang(code3: &str, code1: Option<&str>) -> LanguageTag {
    let name = match code3 {
        "eng" => "English",
        "deu" => "German",
        "zho" => "Chinese",
        "cmn" => "Mandarin Chinese",
        "jpn" => "Japanese",
        "fra" => "French",
        "spa" => "Spanish",
        "gha" => "Ghadamès",
        _ => "",
    };
    LanguageTag { code3: code3.to_string(), code1: code1.map(|c| c.to_string()), name: name.to_string() }
}

fn unsupported(direction: &str) -> String {
    format!("Translation {} is not supported (model not loaded)", direction)
}

fn english() -> LanguageTag {
    lang("eng", Some("en"))
}

fn chinese() -> LanguageTag {
    lang("zho", Some("zh"))
}

fn german() -> LanguageTag {
    lang("deu", Some("de"))
}

fn key(text: &str) -> Vec<char> {
    text.chars().collect()
}

#[test]
fn no_configured_key_lets_everyone_pass() {
    assert!(authorized("", None, None));
    assert!(authorized("", Some("Bearer nonsense"), Some("token=x")));
}

#[test]
fn bearer_header_must_carry_the_key() {
    assert!(authorized("secret", Some("Bearer secret"), None));
    assert!(!authorized("secret", Some("Bearer secret "), None));
    assert!(!authorized("secret", Some("Bearer wrong"), None));
    assert!(!authorized("secret", Some("bearer secret"), None));
    assert!(!authorized("secret", Some("secret"), None));
    assert!(!authorized("secret", Some("Bearer"), None));
    assert!(!authorized("secret", Some(""), None));
    assert!(!authorized("secret", None, None));
}

#[test]
fn query_token_must_carry_the_key() {
    assert!(authorized("secret", None, Some("token=secret")));
    assert!(authorized("secret", None, Some("a=1&token=secret&b=2")));
    assert!(authorized("secret", None, Some("token=secret=more")));
    assert!(authorized("secret", None, Some("token&token=secret")));
    assert!(!authorized("secret", None, Some("token=wrong&token=secret")));
    assert!(!authorized("secret", None, Some("xtoken=secret")));
    assert!(!authorized("secret", None, Some("token=secrets")));
    assert!(!authorized("secret", None, Some("token=")));
    assert!(!authorized("secret", None, Some("")));
    assert!(!authorized("secret", None, Some("a=token=secret")));
}

#[test]
fn either_place_suffices() {
    assert!(authorized("k", Some("Bearer nope"), Some("token=k")));
    assert!(authorized("k", Some("Bearer k"), Some("token=nope")));
    assert!(!authorized("k", Some("Bearer nope"), Some("token=nope")));
}

#[test]
fn refused_requests_are_unauthorized() {
    assert_eq!(authorize("secret", Some("Bearer secret"), None), Ok(()));
    assert_eq!(authorize("", None, None), Ok(()));
    assert_eq!(authorize("secret", None, Some("token=nope")), Err(AppError::Unauthorized));
    assert_eq!(authorize("secret", None, None), Err(AppError::Unauthorized));
}

#[test]
fn header_and_query_are_tested_alone() {
    assert!(header_carries("Bearer abc", &key("abc")));
    assert!(header_carries("Bearer ", &key("")));
    assert!(!header_carries("Bearer abc", &key("ab")));
    assert!(query_carries("x&token=abc", &key("abc")));
    assert!(query_carries("token==x", &key("")));
    assert!(!query_carries("token", &key("")));
    assert!(!query_carries("x=token&y", &key("x")));
}

#[test]
fn directory_names_split_into_two_codes() {
    assert_eq!(split_pair_name("enzh"), Ok(("en".to_string(), "zh".to_string())));
    assert_eq!(split_pair_name("jpen-tiny"), Ok(("jp".to_string(), "en".to_string())));
    for name in ["", "e", "enz"] {
        assert_eq!(
            split_pair_name(name),
            Err(AppError::ConfigError(format!(
                "Invalid language pair format: '{}'. Expected format like 'enzh', 'jpen'",
                name
            )))
        );
    }
}

#[test]
fn model_languages_parses_both_codes() {
    assert_eq!(model_languages("enzh"), Ok((english(), chinese())));
    assert_eq!(model_languages("deen"), Ok((german(), english())));
    assert_eq!(
        model_languages("jpen"),
        Err(AppError::TranslationError(
            "Invalid language code: 'jp'. Please use ISO 639-1 format.".to_string()
        ))
    );
    assert_eq!(
        model_languages("enqq"),
        Err(AppError::TranslationError(
            "Invalid language code: 'qq'. Please use ISO 639-1 format.".to_string()
        ))
    );
    assert!(matches!(model_languages("en"), Err(AppError::ConfigError(_))));
}

#[test]
fn models_are_found_by_their_languages() {
    let models = vec![(english(), chinese()), (chinese(), english())];
    assert!(has_model(&models, &english(), &chinese()));
    assert!(has_model(&models, &lang("zho", None), &english()));
    assert!(!has_model(&models, &english(), &german()));
    assert!(!has_model(&models, &english(), &english()));
    assert!(!has_model(&Vec::new(), &english(), &chinese()));
}

#[test]
fn source_is_parsed_when_named() {
    let models = vec![(english(), chinese())];
    assert_eq!(choose_source(&models, "Hallo", Some("de")), Ok(german()));
    assert_eq!(
        choose_source(&models, "Hallo", Some("zz")),
        Err(AppError::TranslationError(
            "Invalid language code: 'zz'. Please use ISO 639-1 format.".to_string()
        ))
    );
}

#[test]
fn single_model_gives_the_source_when_none_is_named() {
    let models = vec![(german(), english())];
    assert_eq!(choose_source(&models, "你好", None), Ok(german()));
    assert_eq!(choose_source(&models, "你好", Some("")), Ok(german()));
    assert_eq!(choose_source(&models, "你好", Some("auto")), Ok(german()));
}

#[test]
fn source_is_detected_with_several_models() {
    let models = vec![(english(), chinese()), (chinese(), english())];
    let text = "The quick brown fox jumps over the lazy dog and runs through the forest.";
    assert_eq!(choose_source(&models, text, None), Ok(english()));
    assert_eq!(choose_source(&Vec::new(), text, Some("auto")), Ok(english()));
}

#[test]
fn same_served_code_echoes_the_text() {
    let models = vec![(english(), chinese())];
    assert_eq!(
        plan_translation(&models, "你好", &lang("cmn", None), &chinese()),
        Ok(TranslationPlan::Echo {
            text: "你好".to_string(),
            from: "zh".to_string(),
            to: "zh".to_string(),
        })
    );
    assert_eq!(
        plan_translation(&Vec::new(), "Hi", &english(), &english()),
        Ok(TranslationPlan::Echo {
            text: "Hi".to_string(),
            from: "en".to_string(),
            to: "en".to_string(),
        })
    );
}

#[test]
fn unsupported_pairs_are_refused() {
    let models = vec![(english(), chinese())];
    assert_eq!(
        plan_translation(&models, "Hallo", &german(), &english()),
        Err(AppError::TranslationError(
            unsupported("from 'de' to 'en'")
        ))
    );
}

#[test]
fn languages_without_short_code_are_refused() {
    let models = vec![(english(), chinese())];
    assert_eq!(
        plan_translation(&models, "x", &lang("gha", None), &english()),
        Err(AppError::TranslationError(
            "Language 'Ghadamès' doesn't have an ISO 639-1 code".to_string()
        ))
    );
    assert_eq!(
        plan_translation(&models, "x", &english(), &lang("gha", None)),
        Err(AppError::TranslationError(
            "Language 'Ghadamès' doesn't have an ISO 639-1 code".to_string()
        ))
    );
}

#[test]
fn supported_pairs_are_forwarded() {
    let models = vec![(english(), chinese()), (chinese(), english())];
    assert_eq!(
        plan_translation(&models, "Hello", &english(), &chinese()),
        Ok(TranslationPlan::Forward { from: "en".to_string(), to: "zh".to_string() })
    );
}

#[test]
fn perform_translation_goes_from_codes_to_plan() {
    let models = vec![(english(), chinese()), (chinese(), english())];
    assert_eq!(
        perform_translation(&models, "Hello", Some("en".to_string()), "zh-CN"),
        Ok(TranslationPlan::Forward { from: "en".to_string(), to: "zh".to_string() })
    );
    assert_eq!(
        perform_translation(&models, "Hello", Some("en-US".to_string()), "en"),
        Ok(TranslationPlan::Echo {
            text: "Hello".to_string(),
            from: "en".to_string(),
            to: "en".to_string(),
        })
    );
    assert_eq!(
        perform_translation(&models, "Hello", Some("en".to_string()), "klingon"),
        Err(AppError::TranslationError(
            "Invalid language code: 'klingon'. Please use ISO 639-1 format.".to_string()
        ))
    );
    assert_eq!(
        perform_translation(&models, "Hello", Some("??".to_string()), "klingon"),
        Err(AppError::TranslationError(
            "Invalid language code: '??'. Please use ISO 639-1 format.".to_string()
        ))
    );
    assert_eq!(
        perform_translation(&models, "Hello", Some("en".to_string()), "de"),
        Err(AppError::TranslationError(
            unsupported("from 'en' to 'de'")
        ))
    );
}

#[test]
fn perform_translation_detects_the_source() {
    let models = vec![(english(), chinese()), (chinese(), english())];
    let text = "The quick brown fox jumps over the lazy dog and runs through the forest.";
    assert_eq!(
        perform_translation(&models, text, None, "zh"),
        Ok(TranslationPlan::Forward { from: "en".to_string(), to: "zh".to_string() })
    );
    assert_eq!(
        perform_translation(&models, text, Some("auto".to_string()), "en"),
        Ok(TranslationPlan::Echo {
            text: text.to_string(),
            from: "en".to_string(),
            to: "en".to_string(),
        })
    );
}

#[test]
fn finish_translation_returns_text_and_codes() {
    assert_eq!(
        finish_translation("en".to_string(), "zh".to_string(), Ok("你好".to_string())),
        Ok(("你好".to_string(), "en".to_string(), "zh".to_string()))
    );
    assert_eq!(
        finish_translation("en".to_string(), "zh".to_string(), Err("worker down".to_string())),
        Err(AppError::TranslationError("worker down".to_string()))
    );
}

use translation_bridge::backend::{
    decimal, translated, LoadRequest, ProbeStep, Reply, Translator, WorkerRequest, MAX_PROBES,
    PROBE_BACKOFF_MS,
};

fn members(list: &[(&str, &str)]) -> Vec<(String, String)> {
    list.iter().map(|(name, value)| (name.to_string(), value.to_string())).collect()
}
use translation_bridge::error::{AppError, BridgeError};

#[test]
fn decimal_writes_numbers_without_leading_zeroes() {
    assert_eq!(decimal(0), "0");
    assert_eq!(decimal(7), "7");
    assert_eq!(decimal(10), "10");
    assert_eq!(decimal(3001), "3001");
    assert_eq!(decimal(65535), "65535");
    for n in [1u16, 9, 99, 100, 101, 999, 1000, 12345, 40000] {
        assert_eq!(decimal(n), n.to_string());
    }
}

#[test]
fn translator_addresses_the_local_worker() {
    let translator = Translator::new(4, 3001);
    assert_eq!(translator.workers(), 4);
    assert_eq!(translator.health_url(), "http://127.0.0.1:3001/health");
    assert!(!translator.has_loaded("enzh"));
}

#[test]
fn health_check_retries_thirty_times_with_a_fixed_pause() {
    assert_eq!(MAX_PROBES, 30);
    assert_eq!(PROBE_BACKOFF_MS, 1000);
    let translator = Translator::new(1, 80);
    let mut probes = 0u32;
    loop {
        let step = translator.after_probe(probes, false);
        probes += 1;
        match step {
            ProbeStep::RetryAfter { ms } => assert_eq!(ms, 1000),
            ProbeStep::GiveUp(error) => {
                assert_eq!(
                    error,
                    BridgeError::ExternalBackendUnavailable(
                        "Worker at http://127.0.0.1:80 did not respond after 30s".to_string()
                    )
                );
                break;
            }
            ProbeStep::Connected => panic!("an unhealthy worker was connected"),
        }
    }
    assert_eq!(probes, 30);
}

#[test]
fn healthy_worker_is_connected_at_any_attempt() {
    let translator = Translator::new(1, 3001);
    assert_eq!(translator.after_probe(0, true), ProbeStep::Connected);
    assert_eq!(translator.after_probe(29, true), ProbeStep::Connected);
    assert_eq!(translator.after_probe(28, false), ProbeStep::RetryAfter { ms: 1000 });
    assert!(matches!(translator.after_probe(29, false), ProbeStep::GiveUp(_)));
    assert!(matches!(translator.after_probe(u32::MAX, false), ProbeStep::GiveUp(_)));
}

#[test]
fn load_request_names_the_two_codes() {
    let translator = Translator::new(1, 3001);
    assert_eq!(
        translator.load_model("enzh", "/models/enzh"),
        LoadRequest::Send(WorkerRequest {
            url: "http://127.0.0.1:3001/load-model".to_string(),
            members: members(&[("from", "en"), ("to", "zh"), ("modelDir", "/models/enzh")]),
        })
    );
    assert_eq!(
        translator.load_model("zhen-tiny", "m"),
        LoadRequest::Send(WorkerRequest {
            url: "http://127.0.0.1:3001/load-model".to_string(),
            members: members(&[("from", "zh"), ("to", "en"), ("modelDir", "m")]),
        })
    );
}

#[test]
fn confirmed_models_are_not_requested_again() {
    let mut translator = Translator::new(1, 3001);
    assert_eq!(translator.model_loaded("enzh", true, ""), Ok(()));
    assert!(translator.has_loaded("enzh"));
    assert!(!translator.has_loaded("zhen"));
    assert_eq!(translator.load_model("enzh", "a"), LoadRequest::AlreadyLoaded);
    assert_eq!(translator.model_loaded("enzh", true, ""), Ok(()));
    assert_eq!(translator.load_model("enzh", "b"), LoadRequest::AlreadyLoaded);
    assert!(matches!(translator.load_model("zhen", "a"), LoadRequest::Send(_)));
}

#[test]
fn refused_loads_are_reported_and_not_recorded() {
    let mut translator = Translator::new(1, 3001);
    assert_eq!(
        translator.model_loaded("enzh", false, "no such directory"),
        Err(BridgeError::ExternalBackendUnavailable(
            "Failed to load model: no such directory".to_string()
        ))
    );
    assert!(!translator.has_loaded("enzh"));
}

#[test]
fn every_pair_counts_as_supported() {
    let translator = Translator::new(1, 3001);
    assert_eq!(translator.is_supported("en", "zh"), Ok(true));
    assert_eq!(translator.is_supported("", ""), Ok(true));
}

#[test]
fn translate_request_carries_text_and_codes() {
    let translator = Translator::new(2, 8080);
    assert_eq!(
        translator.translate("en", "zh", "Hello"),
        WorkerRequest {
            url: "http://127.0.0.1:8080/translate".to_string(),
            members: members(&[("text", "Hello"), ("from", "en"), ("to", "zh")]),
        }
    );
}

#[test]
fn replies_come_to_text_or_error() {
    assert_eq!(translated(Reply::Document { text: Some("你好".to_string()) }), Ok("你好".to_string()));
    assert_eq!(
        translated(Reply::Document { text: None }),
        Err(AppError::TranslationError("Invalid response format".to_string()))
    );
    assert_eq!(
        translated(Reply::Unreadable),
        Err(AppError::TranslationError("Failed to parse translation response".to_string()))
    );
    assert_eq!(
        translated(Reply::Refused { body: "Model not found for en-zh".to_string() }),
        Err(AppError::TranslationError(
            "Translation failed: Model not found for en-zh".to_string()
        ))
    );
}

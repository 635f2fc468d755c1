use translation_bridge::artifacts::{ArtifactSet, Role};
use translation_bridge::engine::{LanguagePair, LoadStep, ResponseOptions, WasmEngine};
use translation_bridge::error::BridgeError;
use translation_bridge::pool::Pool;

fn full_listing() -> Vec<String> {
    ["model.bin", "model.s2t.bin", "srcvocab.spm", "trgvocab.spm"]
        .iter()
        .map(|s| s.to_string())
        .collect()
}

fn full_set() -> ArtifactSet {
    ArtifactSet { weights: 0, lexical_table: 1, source_vocabulary: 2, target_vocabulary: 3 }
}

fn construct(handle: usize) -> LoadStep {
    LoadStep::Construct { files: full_set(), handle }
}

fn script_failure() -> BridgeError {
    BridgeError::ScriptFailure { message: "out of memory".to_string(), stack: String::new() }
}

fn load(pool: &mut Pool, from: &str, to: &str) -> usize {
    assert!(matches!(
        pool.load_model(from, to, &full_listing()),
        Ok(LoadStep::Construct { .. })
    ));
    pool.model_loaded(from, to, Ok(())).unwrap()
}

#[test]
fn engine_load_is_idempotent() {
    let mut engine = WasmEngine::new();
    assert_eq!(engine.load_model("en", "zh", &full_listing()), Ok(construct(0)));
    assert_eq!(engine.len(), 0);
    assert_eq!(engine.model_loaded("en", "zh", Ok(())), Ok(0));
    assert_eq!(engine.len(), 1);
    assert_eq!(engine.load_model("en", "zh", &full_listing()), Ok(LoadStep::AlreadyLoaded));
    assert_eq!(engine.load_model("en", "zh", &Vec::new()), Ok(LoadStep::AlreadyLoaded));
    assert_eq!(engine.model_loaded("en", "zh", Ok(())), Ok(0));
    assert_eq!(engine.len(), 1);
}

#[test]
fn engine_load_names_the_next_handle() {
    let mut engine = WasmEngine::new();
    engine.register(LanguagePair::new("de", "en"));
    assert_eq!(engine.load_model("en", "zh", &full_listing()), Ok(construct(1)));
    assert_eq!(engine.model_loaded("en", "zh", Ok(())), Ok(1));
    assert_eq!(engine.load_model("zh", "en", &full_listing()), Ok(construct(2)));
}

#[test]
fn engine_keeps_nothing_of_a_construction_that_failed() {
    let mut engine = WasmEngine::new();
    engine.register(LanguagePair::new("de", "en"));
    assert_eq!(engine.load_model("en", "zh", &full_listing()), Ok(construct(1)));
    assert_eq!(engine.model_loaded("en", "zh", Err(script_failure())), Err(script_failure()));
    assert_eq!(engine.len(), 1);
    assert_eq!(engine.handle_of(&LanguagePair::new("en", "zh")), None);
    assert_eq!(engine.load_model("en", "zh", &full_listing()), Ok(construct(1)));
    assert!(engine.translate("Hello", "en", "zh").is_err());
}

#[test]
fn engine_load_with_missing_files_registers_nothing() {
    let mut engine = WasmEngine::new();
    let listing: Vec<String> = vec!["model.bin".to_string(), "srcvocab.spm".to_string()];
    assert_eq!(
        engine.load_model("en", "zh", &listing),
        Err(BridgeError::MissingArtifact(vec![Role::LexicalTable, Role::TargetVocabulary]))
    );
    assert_eq!(engine.len(), 0);
    assert_eq!(engine.handle_of(&LanguagePair::new("en", "zh")), None);
}

#[test]
fn engine_handles_are_positions_in_order_of_registration() {
    let mut engine = WasmEngine::new();
    assert_eq!(engine.register(LanguagePair::new("en", "zh")), 0);
    assert_eq!(engine.register(LanguagePair::new("zh", "en")), 1);
    assert_eq!(engine.register(LanguagePair::new("en", "zh")), 0);
    assert_eq!(engine.len(), 2);
    assert_eq!(engine.handle_of(&LanguagePair::new("zh", "en")), Some(1));
    assert_eq!(engine.handle_of(&LanguagePair::new("en", "de")), None);
}

#[test]
fn engine_translate_on_unregistered_pair_is_model_not_loaded() {
    let mut engine = WasmEngine::new();
    engine.register(LanguagePair::new("en", "zh"));
    assert_eq!(
        engine.translate("Hello", "zh", "en"),
        Err(BridgeError::ModelNotLoaded { source: "zh".to_string(), target: "en".to_string() })
    );
}

#[test]
fn engine_translate_wraps_the_text_as_a_batch_of_one() {
    let mut engine = WasmEngine::new();
    engine.register(LanguagePair::new("de", "en"));
    engine.register(LanguagePair::new("en", "zh"));
    let call = engine.translate("Hello", "en", "zh").unwrap();
    assert_eq!(call.handle, 1);
    assert_eq!(call.batch, vec!["Hello".to_string()]);
    assert_eq!(
        call.options,
        ResponseOptions { quality_scores: false, alignment: true, html: false }
    );
}

#[test]
fn pair_comparison_looks_at_both_codes() {
    let pair = LanguagePair::new("en", "zh");
    assert!(pair.same_as(&LanguagePair::new("en", "zh")));
    assert!(!pair.same_as(&LanguagePair::new("zh", "en")));
    assert!(!pair.same_as(&LanguagePair::new("en", "z")));
    assert_eq!(pair.duplicate(), pair);
}

#[test]
fn pool_starts_empty() {
    let pool = Pool::new(3);
    assert_eq!(pool.workers(), 3);
    assert!(!pool.is_loaded("en", "zh"));
    assert_eq!(pool.instance(2).unwrap().len(), 0);
    assert!(pool.instance(3).is_none());
}

#[test]
fn pool_instances_hold_the_same_pairs_under_the_same_handles() {
    let mut pool = Pool::new(3);
    load(&mut pool, "en", "zh");
    load(&mut pool, "zh", "en");
    assert!(pool.load_model("de", "en", &Vec::new()).is_err());
    for slot in 0..3 {
        let engine = pool.instance(slot).unwrap();
        assert_eq!(engine.len(), 2);
        assert_eq!(engine.handle_of(&LanguagePair::new("en", "zh")), Some(0));
        assert_eq!(engine.handle_of(&LanguagePair::new("zh", "en")), Some(1));
        assert_eq!(engine.handle_of(&LanguagePair::new("de", "en")), None);
    }
}

#[test]
fn round_trip_is_dispatched_when_both_directions_are_loaded() {
    let mut pool = Pool::new(2);
    load(&mut pool, "en", "zh");
    load(&mut pool, "zh", "en");
    let there = pool.translate("en", "zh", "Hello").unwrap();
    assert_eq!(there.call.batch, vec!["Hello".to_string()]);
    let back = pool.translate("zh", "en", "你好").unwrap();
    assert_eq!(back.call.batch, vec!["你好".to_string()]);
    assert_ne!(there.slot, back.slot);
    assert_ne!(there.call.handle, back.call.handle);
}

#[test]
fn pool_load_is_idempotent() {
    let mut pool = Pool::new(2);
    assert_eq!(pool.load_model("en", "zh", &full_listing()), Ok(construct(0)));
    assert!(!pool.is_loaded("en", "zh"));
    assert_eq!(pool.model_loaded("en", "zh", Ok(())), Ok(0));
    assert!(pool.is_loaded("en", "zh"));
    assert_eq!(pool.model_loaded("en", "zh", Ok(())), Ok(0));
    assert_eq!(pool.load_model("en", "zh", &full_listing()), Ok(LoadStep::AlreadyLoaded));
    assert_eq!(pool.load_model("en", "zh", &Vec::new()), Ok(LoadStep::AlreadyLoaded));
    let first = pool.translate("en", "zh", "a").unwrap();
    let second = pool.translate("en", "zh", "b").unwrap();
    assert_eq!(first.call.handle, 0);
    assert_eq!(second.call.handle, 0);
}

#[test]
fn pool_load_with_fewer_than_four_files_fails_and_registers_nothing() {
    let mut pool = Pool::new(2);
    let listing: Vec<String> =
        vec!["model.bin".to_string(), "model.s2t.bin".to_string(), "srcvocab".to_string()];
    assert_eq!(
        pool.load_model("en", "zh", &listing),
        Err(BridgeError::MissingArtifact(vec![Role::TargetVocabulary]))
    );
    assert!(!pool.is_loaded("en", "zh"));
    assert_eq!(
        pool.translate("en", "zh", "Hello"),
        Err(BridgeError::ModelNotLoaded { source: "en".to_string(), target: "zh".to_string() })
    );
}

#[test]
fn pool_keeps_nothing_of_a_construction_that_failed() {
    let mut pool = Pool::new(3);
    load(&mut pool, "de", "en");
    assert_eq!(pool.load_model("en", "zh", &full_listing()), Ok(construct(1)));
    assert_eq!(pool.model_loaded("en", "zh", Err(script_failure())), Err(script_failure()));
    assert!(!pool.is_loaded("en", "zh"));
    for slot in 0..3 {
        assert_eq!(pool.instance(slot).unwrap().len(), 1);
    }
    assert_eq!(
        pool.translate("en", "zh", "Hello"),
        Err(BridgeError::ModelNotLoaded { source: "en".to_string(), target: "zh".to_string() })
    );
    assert_eq!(pool.load_model("en", "zh", &full_listing()), Ok(construct(1)));
    assert_eq!(pool.model_loaded("en", "zh", Ok(())), Ok(1));
    assert!(pool.is_loaded("en", "zh"));
}

#[test]
fn pool_translate_on_empty_pool_is_no_workers() {
    let mut pool = Pool::new(0);
    assert_eq!(load(&mut pool, "en", "zh"), 0);
    assert!(pool.is_loaded("en", "zh"));
    assert_eq!(pool.translate("en", "zh", "Hello"), Err(BridgeError::NoWorkers));
}

#[test]
fn pool_translate_on_unregistered_pair_never_returns_text() {
    let mut pool = Pool::new(3);
    load(&mut pool, "en", "zh");
    for _ in 0..5 {
        assert_eq!(
            pool.translate("zh", "en", "你好"),
            Err(BridgeError::ModelNotLoaded { source: "zh".to_string(), target: "en".to_string() })
        );
    }
}

#[test]
fn pool_selects_every_instance_once_per_round() {
    let mut pool = Pool::new(4);
    load(&mut pool, "en", "zh");
    load(&mut pool, "zh", "en");
    let mut seen = vec![0usize; 4];
    for i in 0..4 {
        let dispatch = if i % 2 == 0 {
            pool.translate("en", "zh", "Hello").unwrap()
        } else {
            pool.translate("zh", "en", "你好").unwrap()
        };
        seen[dispatch.slot] += 1;
        assert_eq!(dispatch.call.handle, i % 2);
    }
    assert_eq!(seen, vec![1, 1, 1, 1]);
}

#[test]
fn pool_counter_moves_on_even_when_the_pair_is_unknown() {
    let mut pool = Pool::new(3);
    load(&mut pool, "en", "zh");
    assert_eq!(pool.translate("en", "zh", "a").unwrap().slot, 0);
    assert!(pool.translate("fr", "de", "b").is_err());
    assert_eq!(pool.translate("en", "zh", "c").unwrap().slot, 2);
    assert_eq!(pool.translate("en", "zh", "d").unwrap().slot, 0);
}

#[test]
fn pool_dispatches_by_a_ticket_drawn_outside() {
    let mut pool = Pool::new(3);
    load(&mut pool, "en", "zh");
    assert_eq!(pool.dispatch(0, "en", "zh", "a").unwrap().slot, 0);
    assert_eq!(pool.dispatch(7, "en", "zh", "a").unwrap().slot, 1);
    assert_eq!(pool.dispatch(usize::MAX, "en", "zh", "a").unwrap().slot, usize::MAX % 3);
    assert_eq!(
        pool.dispatch(7, "zh", "en", "a"),
        Err(BridgeError::ModelNotLoaded { source: "zh".to_string(), target: "en".to_string() })
    );
    assert_eq!(Pool::new(0).dispatch(7, "en", "zh", "a"), Err(BridgeError::NoWorkers));
    assert_eq!(pool.translate("en", "zh", "a").unwrap().slot, 0);
}

#[test]
fn pool_dispatch_carries_the_request() {
    let mut pool = Pool::new(1);
    load(&mut pool, "en", "zh");
    let dispatch = pool.translate("en", "zh", "Hello").unwrap();
    assert_eq!(dispatch.slot, 0);
    assert_eq!(dispatch.call.batch, vec!["Hello".to_string()]);
    assert!(dispatch.call.options.alignment);
    assert!(!dispatch.call.options.quality_scores);
    assert!(!dispatch.call.options.html);
}

use translation_bridge::artifacts::{classify, resolve, ArtifactSet, Role};
use translation_bridge::error::BridgeError;

fn names(list: &[&str]) -> Vec<String> {
    list.iter().map(|s| s.to_string()).collect()
}

#[test]
fn classify_follows_the_naming_convention() {
    assert_eq!(classify("model.enzh.intgemm.alphas.bin"), Some(Role::Weights));
    assert_eq!(classify("model.enzh.s2t.bin"), Some(Role::LexicalTable));
    assert_eq!(classify("srcvocab.enzh.spm"), Some(Role::SourceVocabulary));
    assert_eq!(classify("trgvocab.enzh.spm"), Some(Role::TargetVocabulary));
    assert_eq!(classify("model.bin"), Some(Role::Weights));
}

#[test]
fn classify_rejects_other_names() {
    assert_eq!(classify("lex.50.50.enzh.s2t.bin"), None);
    assert_eq!(classify("model.enzh.txt"), None);
    assert_eq!(classify("mode.bin"), None);
    assert_eq!(classify("xmodel.bin"), None);
    assert_eq!(classify("vocab.spm"), None);
    assert_eq!(classify(""), None);
    assert_eq!(classify(".bin"), None);
    assert_eq!(classify("README.md"), None);
}

#[test]
fn classify_takes_names_with_wide_characters() {
    assert_eq!(classify("model.日本語.bin"), Some(Role::Weights));
    assert_eq!(classify("srcvocabé"), Some(Role::SourceVocabulary));
    assert_eq!(classify("モデル.bin"), None);
}

#[test]
fn resolve_finds_the_four_files() {
    let listing = names(&[
        "README.md",
        "trgvocab.enzh.spm",
        "model.enzh.intgemm.alphas.bin",
        "srcvocab.enzh.spm",
        "model.enzh.s2t.bin",
    ]);
    assert_eq!(
        resolve(&listing),
        Ok(ArtifactSet { weights: 2, lexical_table: 4, source_vocabulary: 3, target_vocabulary: 1 })
    );
}

#[test]
fn resolve_takes_the_later_of_two_files_for_one_role() {
    let listing = names(&[
        "model.a.bin",
        "model.s2t.bin",
        "srcvocab.a",
        "trgvocab.a",
        "model.b.bin",
        "srcvocab.b",
    ]);
    let set = resolve(&listing).unwrap();
    assert_eq!(set.weights, 4);
    assert_eq!(set.lexical_table, 1);
    assert_eq!(set.source_vocabulary, 5);
    assert_eq!(set.target_vocabulary, 3);
    assert_eq!(set.index_of(Role::Weights), 4);
    assert_eq!(set.index_of(Role::TargetVocabulary), 3);
}

#[test]
fn resolve_names_the_missing_roles_in_order() {
    assert_eq!(
        resolve(&names(&[])),
        Err(BridgeError::MissingArtifact(vec![
            Role::Weights,
            Role::LexicalTable,
            Role::SourceVocabulary,
            Role::TargetVocabulary,
        ]))
    );
    assert_eq!(
        resolve(&names(&["model.enzh.bin", "trgvocab.spm", "notes.txt"])),
        Err(BridgeError::MissingArtifact(vec![Role::LexicalTable, Role::SourceVocabulary]))
    );
    assert_eq!(
        resolve(&names(&["model.s2t.bin", "srcvocab.spm", "trgvocab.spm"])),
        Err(BridgeError::MissingArtifact(vec![Role::Weights]))
    );
}

#[test]
fn three_files_of_one_role_do_not_make_a_model() {
    let listing = names(&["model.a.bin", "model.b.bin", "model.c.bin", "model.d.bin"]);
    assert_eq!(
        resolve(&listing),
        Err(BridgeError::MissingArtifact(vec![
            Role::LexicalTable,
            Role::SourceVocabulary,
            Role::TargetVocabulary,
        ]))
    );
}

//! Model artifacts: their roles, the naming convention that assigns a file to
//! a role, and the placement of their bytes at aligned addresses.

use crate::error::BridgeError;
use crate::text::{chars_of, contains, ends_with, occurs_in, starts_with};
use vstd::prelude::*;

verus! {

/// The part that a file plays in a translation model.
#[derive(Debug, Clone, Copy, PartialEq, Eq, Structural)]
pub enum Role {
    /// Primary weights.
    Weights,
    /// Lexical shortlist table.
    LexicalTable,
    /// Source-side vocabulary.
    SourceVocabulary,
    /// Target-side vocabulary.
    TargetVocabulary,
}

/// The role that the naming convention gives to a file called `name`: a name
/// that begins with `model` and ends with `.bin` is the lexical table where it
/// holds `s2t` and the weights otherwise; one that begins with `srcvocab` or
/// `trgvocab` is the vocabulary of that side.
pub open spec fn role_of(name: Seq<char>) -> Option<Role> {
    if "model"@.is_prefix_of(name) && ".bin"@.is_suffix_of(name) {
        if occurs_in("s2t"@, name) {
            Some(Role::LexicalTable)
        } else {
            Some(Role::Weights)
        }
    } else if "srcvocab"@.is_prefix_of(name) {
        Some(Role::SourceVocabulary)
    } else if "trgvocab"@.is_prefix_of(name) {
        Some(Role::TargetVocabulary)
    } else {
        None
    }
}

/// Classifies a file by its name.
pub fn classify(name: &str) -> (role: Option<Role>)
    ensures
        role == role_of(name@),
{
    let text = chars_of(name);
    let model = chars_of("model");
    let bin = chars_of(".bin");
    if starts_with(text.as_slice(), model.as_slice()) && ends_with(text.as_slice(), bin.as_slice()) {
        let s2t = chars_of("s2t");
        if contains(text.as_slice(), s2t.as_slice()) {
            Some(Role::LexicalTable)
        } else {
            Some(Role::Weights)
        }
    } else {
        let srcvocab = chars_of("srcvocab");
        let trgvocab = chars_of("trgvocab");
        if starts_with(text.as_slice(), srcvocab.as_slice()) {
            Some(Role::SourceVocabulary)
        } else if starts_with(text.as_slice(), trgvocab.as_slice()) {
            Some(Role::TargetVocabulary)
        } else {
            None
        }
    }
}

/// Whether some file among `names` plays `role`.
pub open spec fn has_role(names: Seq<String>, role: Role) -> bool {
    exists|i: int| 0 <= i < names.len() && role_of(#[trigger] names[i]@) == Some(role)
}

/// What is known of `role` after the first `bound` names: `found` is the last
/// of them that plays it, or none does.
pub open spec fn last_before(names: Seq<String>, role: Role, bound: int, found: Option<usize>) -> bool {
    match found {
        Some(at) => at < bound && role_of(names[at as int]@) == Some(role) && forall|j: int|
            at < j < bound ==> role_of(#[trigger] names[j]@) != Some(role),
        None => forall|j: int| 0 <= j < bound ==> role_of(#[trigger] names[j]@) != Some(role),
    }
}

/// The empty list where `present`, else the list of `role` alone.
pub open spec fn unless(present: bool, role: Role) -> Seq<Role> {
    if present {
        Seq::empty()
    } else {
        seq![role]
    }
}

/// The roles that no file among `names` plays, in the order weights, lexical
/// table, source vocabulary, target vocabulary.
pub open spec fn missing_roles(names: Seq<String>) -> Seq<Role> {
    unless(has_role(names, Role::Weights), Role::Weights) + unless(
        has_role(names, Role::LexicalTable),
        Role::LexicalTable,
    ) + unless(has_role(names, Role::SourceVocabulary), Role::SourceVocabulary) + unless(
        has_role(names, Role::TargetVocabulary),
        Role::TargetVocabulary,
    )
}

/// The four files of one language pair, each by its position in the listing
/// that was resolved.
#[derive(Debug, Clone, Copy, PartialEq, Eq)]
pub struct ArtifactSet {
    pub weights: usize,
    pub lexical_table: usize,
    pub source_vocabulary: usize,
    pub target_vocabulary: usize,
}

impl ArtifactSet {
    /// The position recorded for `role`.
    pub open spec fn position(&self, role: Role) -> usize {
        match role {
            Role::Weights => self.weights,
            Role::LexicalTable => self.lexical_table,
            Role::SourceVocabulary => self.source_vocabulary,
            Role::TargetVocabulary => self.target_vocabulary,
        }
    }

    /// Each position is that of the last file among `names` that plays the
    /// role: where two files claim one role, the later one stands.
    pub open spec fn resolves(&self, names: Seq<String>) -> bool {
        forall|role: Role| #[trigger]
            last_before(names, role, names.len() as int, Some(self.position(role)))
    }

    /// The position recorded for `role`.
    pub fn index_of(&self, role: Role) -> (at: usize)
        ensures
            at == self.position(role),
    {
        match role {
            Role::Weights => self.weights,
            Role::LexicalTable => self.lexical_table,
            Role::SourceVocabulary => self.source_vocabulary,
            Role::TargetVocabulary => self.target_vocabulary,
        }
    }
}

/// Where `found` is known for the first `bound` names, and the next name plays
/// `seen`, the record for `role` after `bound + 1` names.
fn note(names: &Vec<String>, role: Role, bound: usize, found: Option<usize>, seen: Option<Role>) -> (next: Option<usize>)
    requires
        bound < names.len(),
        last_before(names@, role, bound as int, found),
        seen == role_of(names@[bound as int]@),
    ensures
        last_before(names@, role, bound + 1, next),
{
    match seen {
        Some(r) => {
            if r == role {
                Some(bound)
            } else {
                found
            }
        },
        None => found,
    }
}

/// Resolves the four required files of a language pair among the names of a
/// directory listing. It succeeds exactly when every role is played by some
/// file, and otherwise names the roles that are not.
pub fn resolve(names: &Vec<String>) -> (resolved: Result<ArtifactSet, BridgeError>)
    ensures
        match resolved {
            Ok(set) => missing_roles(names@).len() == 0 && set.resolves(names@),
            Err(BridgeError::MissingArtifact(roles)) => roles@.len() > 0 && roles@
                == missing_roles(names@),
            Err(_) => false,
        },
{
    let mut weights: Option<usize> = None;
    let mut lexical_table: Option<usize> = None;
    let mut source_vocabulary: Option<usize> = None;
    let mut target_vocabulary: Option<usize> = None;
    let mut i: usize = 0;
    while i < names.len()
        invariant
            i <= names.len(),
            last_before(names@, Role::Weights, i as int, weights),
            last_before(names@, Role::LexicalTable, i as int, lexical_table),
            last_before(names@, Role::SourceVocabulary, i as int, source_vocabulary),
            last_before(names@, Role::TargetVocabulary, i as int, target_vocabulary),
        decreases names.len() - i,
    {
        let seen = classify(names[i].as_str());
        weights = note(names, Role::Weights, i, weights, seen);
        lexical_table = note(names, Role::LexicalTable, i, lexical_table, seen);
        source_vocabulary = note(names, Role::SourceVocabulary, i, source_vocabulary, seen);
        target_vocabulary = note(names, Role::TargetVocabulary, i, target_vocabulary, seen);
        i += 1;
    }
    proof {
        lemma_found_iff_present(names@, Role::Weights, weights);
        lemma_found_iff_present(names@, Role::LexicalTable, lexical_table);
        lemma_found_iff_present(names@, Role::SourceVocabulary, source_vocabulary);
        lemma_found_iff_present(names@, Role::TargetVocabulary, target_vocabulary);
    }
    match (weights, lexical_table, source_vocabulary, target_vocabulary) {
        (Some(w), Some(l), Some(s), Some(t)) => {
            let set = ArtifactSet {
                weights: w,
                lexical_table: l,
                source_vocabulary: s,
                target_vocabulary: t,
            };
            assert(missing_roles(names@) =~= Seq::<Role>::empty());
            Ok(set)
        },
        _ => {
            let mut missing: Vec<Role> = Vec::new();
            if weights.is_none() {
                missing.push(Role::Weights);
            }
            if lexical_table.is_none() {
                missing.push(Role::LexicalTable);
            }
            if source_vocabulary.is_none() {
                missing.push(Role::SourceVocabulary);
            }
            if target_vocabulary.is_none() {
                missing.push(Role::TargetVocabulary);
            }
            assert(missing@ =~= missing_roles(names@));
            Err(BridgeError::MissingArtifact(missing))
        },
    }
}

/// A record over the whole listing names a file exactly when the role is
/// played.
proof fn lemma_found_iff_present(names: Seq<String>, role: Role, found: Option<usize>)
    requires
        last_before(names, role, names.len() as int, found),
    ensures
        found is Some <==> has_role(names, role),
{
    if let Some(at) = found {
        assert(role_of(names[at as int]@) == Some(role));
    }
}

/// A listing lacks no role exactly when each of the four roles is played
/// by one of its files.
pub proof fn lemma_complete_iff_four_roles(names: Seq<String>)
    ensures
        missing_roles(names).len() == 0 <==> (has_role(names, Role::Weights) && has_role(
            names,
            Role::LexicalTable,
        ) && has_role(names, Role::SourceVocabulary) && has_role(names, Role::TargetVocabulary)),
{
}

} // verus!

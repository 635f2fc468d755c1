//! One engine instance as the host keeps it: which language pairs are
//! registered in its script context, under which handle, and what a load or
//! a translation call has to do there.

use crate::artifacts::{missing_roles, resolve, ArtifactSet};
use crate::error::BridgeError;
use vstd::prelude::*;

verus! {

/// A language pair as contracts see it: the source code, then the target code.
pub type PairView = (Seq<char>, Seq<char>);

/// An ordered pair of language codes that names one directional model.
#[derive(Debug, PartialEq, Eq)]
pub struct LanguagePair {
    pub source: String,
    pub target: String,
}

impl LanguagePair {
    /// The two codes.
    pub open spec fn view(&self) -> PairView {
        (self.source@, self.target@)
    }

    /// The pair from `source` to `target`.
    pub fn new(source: &str, target: &str) -> (pair: Self)
        ensures
            pair@ == (source@, target@),
    {
        LanguagePair { source: source.to_owned(), target: target.to_owned() }
    }

    /// A pair with the same codes.
    pub fn duplicate(&self) -> (pair: Self)
        ensures
            pair@ == self@,
    {
        LanguagePair { source: self.source.clone(), target: self.target.clone() }
    }

    /// Tests whether both codes agree.
    pub fn same_as(&self, other: &LanguagePair) -> (same: bool)
        ensures
            same == (self@ == other@),
    {
        self.source == other.source && self.target == other.target
    }
}

/// The views of a list of pairs.
pub open spec fn pair_views(pairs: Seq<LanguagePair>) -> Seq<PairView> {
    pairs.map_values(|p: LanguagePair| p@)
}

/// The table that results from registering `pair` in `table`: unchanged where
/// the pair is registered already, else with the pair as its newest entry.
pub open spec fn registered(table: Seq<PairView>, pair: PairView) -> Seq<PairView> {
    if table.contains(pair) {
        table
    } else {
        table.push(pair)
    }
}

/// Registering keeps a table free of duplicates, leaves the pair registered,
/// and changes nothing when done again.
pub proof fn lemma_registered(table: Seq<PairView>, pair: PairView)
    requires
        table.no_duplicates(),
    ensures
        registered(table, pair).no_duplicates(),
        registered(table, pair).contains(pair),
        registered(registered(table, pair), pair) == registered(table, pair),
        forall|other: PairView| table.contains(other) ==> registered(table, pair).contains(other),
{
    let after = registered(table, pair);
    if table.contains(pair) {
    } else {
        assert(after[table.len() as int] == pair);
        assert forall|other: PairView| table.contains(other) implies after.contains(other) by {
            let i = choose|i: int| 0 <= i < table.len() && table[i] == other;
            assert(after[i] == other);
        }
    }
}

/// The models registered in the script context of one engine instance. The
/// host holds only the keys: the handle of a model is its position here.
#[derive(Debug)]
pub struct WasmEngine {
    models: Vec<LanguagePair>,
}

impl WasmEngine {
    /// The registered pairs, by handle.
    pub closed spec fn view(&self) -> Seq<PairView> {
        pair_views(self.models@)
    }

    /// No pair is registered under two handles.
    #[verifier::type_invariant]
    pub open spec fn one_handle_per_pair(&self) -> bool {
        self@.no_duplicates()
    }

    /// An instance with no model registered.
    pub fn new() -> (instance: Self)
        ensures
            instance@ == Seq::<PairView>::empty(),
    {
        let models: Vec<LanguagePair> = Vec::new();
        assert(pair_views(models@) =~= Seq::<PairView>::empty());
        WasmEngine { models }
    }

    /// The number of registered models.
    pub fn len(&self) -> (n: usize)
        ensures
            n as nat == self@.len(),
    {
        self.models.len()
    }

    /// The handle of the model for `pair`: the one position that holds it.
    pub fn handle_of(&self, pair: &LanguagePair) -> (handle: Option<usize>)
        ensures
            self@.no_duplicates(),
            match handle {
                Some(h) => h < self@.len() && self@[h as int] == pair@ && forall|j: int|
                    0 <= j < self@.len() && j != h ==> self@[j] != pair@,
                None => !self@.contains(pair@),
            },
    {
        proof {
            use_type_invariant(self);
        }
        let mut i: usize = 0;
        while i < self.models.len()
            invariant
                i <= self.models.len(),
                self@.no_duplicates(),
                forall|j: int| 0 <= j < i ==> self@[j] != pair@,
            decreases self.models.len() - i,
        {
            if self.models[i].same_as(pair) {
                return Some(i);
            }
            i += 1;
        }
        None
    }

    /// Registers the model for `pair` and returns its handle. A pair that is
    /// registered already keeps its handle, and the table stays as it was.
    pub fn register(&mut self, pair: LanguagePair) -> (handle: usize)
        ensures
            final(self)@ == registered(old(self)@, pair@),
            final(self)@.no_duplicates(),
            handle < final(self)@.len(),
            final(self)@[handle as int] == pair@,
            !old(self)@.contains(pair@) ==> handle as nat == old(self)@.len(),
    {
        match self.handle_of(&pair) {
            Some(h) => h,
            None => {
                let h = self.models.len();
                proof {
                    lemma_registered(self@, pair@);
                    assert(pair_views(self.models@.push(pair)) =~= self@.push(pair@));
                    assert(pair_views(Seq::<LanguagePair>::empty()) =~= Seq::<PairView>::empty());
                }
                let mut models: Vec<LanguagePair> = Vec::new();
                std::mem::swap(&mut self.models, &mut models);
                models.push(pair);
                std::mem::swap(&mut self.models, &mut models);
                h
            },
        }
    }
}

/// What remains to be done for a requested load.
#[derive(Debug, Clone, Copy, PartialEq, Eq)]
pub enum LoadStep {
    /// The pair is loaded: nothing is read and nothing is registered.
    AlreadyLoaded,
    /// The four files to read and to construct the model with, and the
    /// handle under which the model is registered once it is constructed.
    Construct { files: ArtifactSet, handle: usize },
}

/// The options of one translation request: alignment is asked for, quality
/// scores and HTML rendering are not.
#[derive(Debug, Clone, Copy, PartialEq, Eq, Structural)]
pub struct ResponseOptions {
    pub quality_scores: bool,
    pub alignment: bool,
    pub html: bool,
}

/// The options that every translation request carries.
pub open spec fn request_options() -> ResponseOptions {
    ResponseOptions { quality_scores: false, alignment: true, html: false }
}

/// One call into the translation service of an instance.
#[derive(Debug, PartialEq, Eq)]
pub struct TranslationCall {
    /// The handle of the model to translate with.
    pub handle: usize,
    /// The texts to translate: the request text as a batch of one.
    pub batch: Vec<String>,
    /// The options of the request.
    pub options: ResponseOptions,
}

impl TranslationCall {
    /// Whether this is the call for `text` with the model under `handle`.
    pub open spec fn carries(&self, handle: usize, text: Seq<char>) -> bool {
        &&& self.handle == handle
        &&& self.batch@.len() == 1
        &&& self.batch@[0]@ == text
        &&& self.options == request_options()
    }
}

impl WasmEngine {
    /// Decides what a load of the model for the pair from `from` to `to`
    /// has to do, out of a directory that lists `names`. A pair that is
    /// registered already needs nothing, whatever the directory holds. For
    /// another pair the four files are resolved; a directory that lacks a
    /// role is refused with the roles it lacks; else the files to construct
    /// the model with are returned, with the handle that it will get.
    /// Nothing is registered here: that waits for `model_loaded`.
    pub fn load_model(&self, from: &str, to: &str, names: &Vec<String>) -> (step: Result<
        LoadStep,
        BridgeError,
    >)
        ensures
            load_outcome(self@, (from@, to@), names@, step),
    {
        let pair = LanguagePair::new(from, to);
        if self.handle_of(&pair).is_some() {
            return Ok(LoadStep::AlreadyLoaded);
        }
        match resolve(names) {
            Ok(files) => Ok(LoadStep::Construct { files, handle: self.models.len() }),
            Err(e) => Err(e),
        }
    }

    /// Records how the construction of the model for the pair from `from`
    /// to `to` ended on the script side. A constructed model is registered
    /// and its handle returned. A failure, whatever its cause, is passed on
    /// and leaves the registered pairs as they were.
    pub fn model_loaded(&mut self, from: &str, to: &str, constructed: Result<(), BridgeError>) -> (recorded:
        Result<usize, BridgeError>)
        ensures
            load_recorded(old(self)@, (from@, to@), constructed, final(self)@, recorded),
    {
        match constructed {
            Ok(()) => Ok(self.register(LanguagePair::new(from, to))),
            Err(e) => Err(e),
        }
    }

    /// Prepares the translation of `text` from `from` to `to`: the text as a
    /// batch of one, with the request options, for the model registered for
    /// the pair. Where none is registered the call is refused, naming the
    /// pair, and no text comes back.
    pub fn translate(&self, text: &str, from: &str, to: &str) -> (call: Result<
        TranslationCall,
        BridgeError,
    >)
        ensures
            match call {
                Ok(prepared) => prepared.handle < self@.len() && self@[prepared.handle as int] == (
                    from@,
                    to@,
                ) && prepared.carries(prepared.handle, text@),
                Err(BridgeError::ModelNotLoaded { source, target }) => !self@.contains((from@, to@))
                    && source@ == from@ && target@ == to@,
                Err(_) => false,
            },
    {
        let pair = LanguagePair::new(from, to);
        match self.handle_of(&pair) {
            Some(handle) => {
                let mut batch: Vec<String> = Vec::new();
                batch.push(text.to_owned());
                Ok(
                    TranslationCall {
                        handle,
                        batch,
                        options: ResponseOptions {
                            quality_scores: false,
                            alignment: true,
                            html: false,
                        },
                    },
                )
            },
            None => Err(BridgeError::ModelNotLoaded { source: pair.source, target: pair.target }),
        }
    }
}

/// What a load of `pair` from a directory that lists `names` yields where
/// `table` holds the pairs registered before.
pub open spec fn load_outcome(
    table: Seq<PairView>,
    pair: PairView,
    names: Seq<String>,
    step: Result<LoadStep, BridgeError>,
) -> bool {
    if table.contains(pair) {
        step == Ok::<LoadStep, BridgeError>(LoadStep::AlreadyLoaded)
    } else {
        match step {
            Ok(LoadStep::Construct { files, handle }) => missing_roles(names).len() == 0
                && files.resolves(names) && handle as nat == table.len(),
            Ok(LoadStep::AlreadyLoaded) => false,
            Err(BridgeError::MissingArtifact(roles)) => roles@.len() > 0 && roles@ == missing_roles(
                names,
            ),
            Err(_) => false,
        }
    }
}

/// What recording the end of a construction yields: `after` is the table
/// that follows `before`. A constructed model is registered, under the
/// handle returned; a failure is passed on and changes nothing.
pub open spec fn load_recorded(
    before: Seq<PairView>,
    pair: PairView,
    constructed: Result<(), BridgeError>,
    after: Seq<PairView>,
    recorded: Result<usize, BridgeError>,
) -> bool {
    match (constructed, recorded) {
        (Ok(_), Ok(handle)) => after == registered(before, pair) && handle < after.len()
            && after[handle as int] == pair && (!before.contains(pair) ==> handle as nat
            == before.len()),
        (Err(failure), Err(passed)) => passed == failure && after == before,
        _ => false,
    }
}

} // verus!

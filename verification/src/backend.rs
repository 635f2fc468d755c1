//! The delegated backend: a worker process that translates on behalf of the
//! gateway. The gateway probes it before first use, asks it to load each
//! model once, and passes translation requests on to it.
//!
//! The host sends the requests; the functions here say what to send and
//! what each answer comes to.

use crate::error::{AppError, BridgeError};
use vstd::prelude::*;
use vstd::string::{StrSliceExecFns, StringExecFns};

verus! {

/// The number of health probes before the backend is given up.
pub const MAX_PROBES: u32 = 30;

/// The pause between two health probes, in milliseconds.
pub const PROBE_BACKOFF_MS: u64 = 1000;

/// The decimal digits.
pub open spec fn digit_table() -> Seq<char> {
    "0123456789"@
}

/// `n` in decimal, without leading zeroes.
pub open spec fn digits_of(n: nat) -> Seq<char>
    decreases n,
{
    if n < 10 {
        digit_table().subrange(n as int, n as int + 1)
    } else {
        digits_of(n / 10) + digit_table().subrange((n % 10) as int, (n % 10) as int + 1)
    }
}

/// Writes `n` in decimal.
pub fn decimal(n: u16) -> (text: String)
    ensures
        text@ == digits_of(n as nat),
    decreases n,
{
    proof {
        reveal_strlit("0123456789");
    }
    let unit: usize = (n % 10) as usize;
    let digit = "0123456789".substring_char(unit, unit + 1);
    if n < 10 {
        digit.to_owned()
    } else {
        decimal(n / 10).concat(digit)
    }
}

/// The address of the worker that listens on `port` of this machine.
pub open spec fn worker_address(port: u16) -> Seq<char> {
    "http://127.0.0.1:"@ + digits_of(port as nat)
}

/// What follows one health probe.
#[derive(Debug, PartialEq, Eq)]
pub enum ProbeStep {
    /// The worker answered: the backend may be used.
    Connected,
    /// Probe again after this many milliseconds.
    RetryAfter { ms: u64 },
    /// The worker never answered: the backend is unavailable.
    GiveUp(BridgeError),
}

/// The text of the failure for a worker that never answered.
pub open spec fn unresponsive_message(address: Seq<char>) -> Seq<char> {
    "Worker at "@ + address + " did not respond after 30s"@
}

/// The text of the failure for a model that the worker did not load.
pub open spec fn load_failed_message(reason: Seq<char>) -> Seq<char> {
    "Failed to load model: "@ + reason
}

/// The text of the failure for a translation that the worker refused.
pub open spec fn translation_failed_message(reason: Seq<char>) -> Seq<char> {
    "Translation failed: "@ + reason
}

/// One request to the worker: `POST` to `url` a JSON object of string
/// members, each given by name and value.
#[derive(Debug, PartialEq, Eq)]
pub struct WorkerRequest {
    pub url: String,
    pub members: Vec<(String, String)>,
}

impl WorkerRequest {
    /// The address and the members.
    pub open spec fn view(&self) -> (Seq<char>, Seq<(Seq<char>, Seq<char>)>) {
        (self.url@, self.members@.map_values(|m: (String, String)| (m.0@, m.1@)))
    }
}

/// What the gateway asks of a load.
#[derive(Debug, PartialEq, Eq)]
pub enum LoadRequest {
    /// The worker holds the model: nothing is sent.
    AlreadyLoaded,
    /// Ask the worker to load the model.
    Send(WorkerRequest),
}

/// The request `POST /load-model {modelDir, from, to}` to the worker at
/// `address`, for the model directory named `language_pair`.
pub open spec fn load_request(address: Seq<char>, language_pair: Seq<char>, model_dir: Seq<char>) -> (
    Seq<char>,
    Seq<(Seq<char>, Seq<char>)>,
) {
    (
        address + "/load-model"@,
        seq![
            ("from"@, language_pair.subrange(0, 2)),
            ("to"@, language_pair.subrange(2, 4)),
            ("modelDir"@, model_dir),
        ],
    )
}

/// The request `POST /translate {text, from, to}` to the worker at `address`.
pub open spec fn translate_request(
    address: Seq<char>,
    text: Seq<char>,
    from: Seq<char>,
    to: Seq<char>,
) -> (Seq<char>, Seq<(Seq<char>, Seq<char>)>) {
    (address + "/translate"@, seq![("text"@, text), ("from"@, from), ("to"@, to)])
}

/// One member of a request.
fn member(name: &str, value: &str) -> (pair: (String, String))
    ensures
        pair.0@ == name@,
        pair.1@ == value@,
{
    (name.to_owned(), value.to_owned())
}

/// What came back for a translation request.
#[derive(Debug, PartialEq, Eq)]
pub enum Reply {
    /// A status other than success, with the body.
    Refused { body: String },
    /// Success with a body that is no JSON document.
    Unreadable,
    /// Success with a JSON document; `text` is its `text` member where that
    /// is a string.
    Document { text: Option<String> },
}

/// The gateway's handle on the delegated backend.
#[derive(Debug)]
pub struct Translator {
    worker_url: String,
    loaded_models: Vec<String>,
    workers: usize,
}

impl Translator {
    /// The address of the worker.
    pub closed spec fn address(&self) -> Seq<char> {
        self.worker_url@
    }

    /// The directory names of the models that the worker has loaded.
    pub closed spec fn loaded(&self) -> Seq<Seq<char>> {
        self.loaded_models@.map_values(|name: String| name@)
    }

    /// No model is recorded twice.
    #[verifier::type_invariant]
    pub open spec fn recorded_once(&self) -> bool {
        self.loaded().no_duplicates()
    }

    /// The number of workers that the gateway was configured with.
    pub closed spec fn worker_count(&self) -> nat {
        self.workers as nat
    }

    /// A handle on the worker that listens on `worker_port` of this machine,
    /// with no model loaded. The worker is to be probed before first use.
    pub fn new(num_workers: usize, worker_port: u16) -> (translator: Self)
        ensures
            translator.address() == worker_address(worker_port),
            translator.loaded() == Seq::<Seq<char>>::empty(),
            translator.worker_count() == num_workers as nat,
    {
        let loaded_models: Vec<String> = Vec::new();
        assert(loaded_models@.map_values(|name: String| name@) =~= Seq::<Seq<char>>::empty());
        Translator {
            worker_url: String::from_str("http://127.0.0.1:").concat(decimal(worker_port).as_str()),
            loaded_models,
            workers: num_workers,
        }
    }

    /// The number of workers that the gateway was configured with.
    pub fn workers(&self) -> (n: usize)
        ensures
            n as nat == self.worker_count(),
    {
        self.workers
    }

    /// The address to probe: `/health` on the worker.
    pub fn health_url(&self) -> (url: String)
        ensures
            url@ == self.address() + "/health"@,
    {
        self.worker_url.clone().concat("/health")
    }

    /// Decides what follows the probe number `attempt`, counted from zero,
    /// which found the worker `healthy` or not. A healthy worker is
    /// connected. Else the probe is repeated after a fixed pause, until
    /// `MAX_PROBES` probes have failed: then the backend is given up.
    pub fn after_probe(&self, attempt: u32, healthy: bool) -> (step: ProbeStep)
        ensures
            healthy ==> step == ProbeStep::Connected,
            !healthy && attempt + 1 < MAX_PROBES ==> step == (ProbeStep::RetryAfter {
                ms: PROBE_BACKOFF_MS,
            }),
            !healthy && attempt + 1 >= MAX_PROBES ==> (step matches ProbeStep::GiveUp(
                BridgeError::ExternalBackendUnavailable(message),
            ) && message@ == unresponsive_message(self.address())),
    {
        if healthy {
            ProbeStep::Connected
        } else if attempt < MAX_PROBES - 1 {
            ProbeStep::RetryAfter { ms: PROBE_BACKOFF_MS }
        } else {
            ProbeStep::GiveUp(
                BridgeError::ExternalBackendUnavailable(
                    String::from_str("Worker at ").concat(self.worker_url.as_str()).concat(
                        " did not respond after 30s",
                    ),
                ),
            )
        }
    }

    /// Tests whether the worker has loaded the model of the directory
    /// `language_pair`.
    pub fn has_loaded(&self, language_pair: &str) -> (loaded: bool)
        ensures
            loaded == self.loaded().contains(language_pair@),
            self.loaded().no_duplicates(),
    {
        proof {
            use_type_invariant(self);
        }
        let name = language_pair.to_owned();
        let mut i: usize = 0;
        while i < self.loaded_models.len()
            invariant
                i <= self.loaded_models.len(),
                self.loaded().no_duplicates(),
                name@ == language_pair@,
                forall|j: int| 0 <= j < i ==> self.loaded()[j] != language_pair@,
            decreases self.loaded_models.len() - i,
        {
            if self.loaded_models[i] == name {
                assert(self.loaded()[i as int] == language_pair@);
                return true;
            }
            i += 1;
        }
        false
    }

    /// Decides what a load of the model directory `language_pair`, found at
    /// `model_dir`, asks of the worker: nothing where the model is loaded,
    /// else one request with the two codes that the name is made of.
    pub fn load_model(&self, language_pair: &str, model_dir: &str) -> (request: LoadRequest)
        requires
            language_pair@.len() >= 4,
        ensures
            self.loaded().contains(language_pair@) ==> request == LoadRequest::AlreadyLoaded,
            !self.loaded().contains(language_pair@) ==> (request matches LoadRequest::Send(sent)
                && sent@ == load_request(self.address(), language_pair@, model_dir@)),
    {
        if self.has_loaded(language_pair) {
            return LoadRequest::AlreadyLoaded;
        }
        let mut members: Vec<(String, String)> = Vec::new();
        members.push(member("from", language_pair.substring_char(0, 2)));
        members.push(member("to", language_pair.substring_char(2, 4)));
        members.push(member("modelDir", model_dir));
        let sent = WorkerRequest { url: self.worker_url.clone().concat("/load-model"), members };
        assert(sent@.1 =~= load_request(self.address(), language_pair@, model_dir@).1);
        LoadRequest::Send(sent)
    }

    /// Records the worker's answer to a load request. On success the model
    /// counts as loaded from now on; a refusal leaves the record as it was
    /// and is reported with the worker's reason.
    pub fn model_loaded(&mut self, language_pair: &str, success: bool, body: &str) -> (outcome:
        Result<(), BridgeError>)
        ensures
            final(self).address() == old(self).address(),
            final(self).worker_count() == old(self).worker_count(),
            final(self).loaded().no_duplicates(),
            success ==> outcome is Ok && final(self).loaded() == (if old(self).loaded().contains(
                language_pair@,
            ) {
                old(self).loaded()
            } else {
                old(self).loaded().push(language_pair@)
            }),
            !success ==> final(self).loaded() == old(self).loaded() && (outcome matches Err(
                BridgeError::ExternalBackendUnavailable(message),
            ) && message@ == load_failed_message(body@)),
    {
        proof {
            use_type_invariant(&*self);
        }
        if !success {
            return Err(
                BridgeError::ExternalBackendUnavailable(
                    String::from_str("Failed to load model: ").concat(body),
                ),
            );
        }
        if !self.has_loaded(language_pair) {
            let name = language_pair.to_owned();
            proof {
                lemma_load_cache(self.loaded(), language_pair@);
                assert(self.loaded_models@.push(name).map_values(|name: String| name@)
                    =~= self.loaded().push(language_pair@));
                assert(Seq::<String>::empty().map_values(|name: String| name@) =~= Seq::<
                    Seq<char>,
                >::empty());
            }
            let mut names: Vec<String> = Vec::new();
            std::mem::swap(&mut self.loaded_models, &mut names);
            names.push(name);
            std::mem::swap(&mut self.loaded_models, &mut names);
        }
        Ok(())
    }

    /// Every pair counts as supported: the worker refuses what it cannot
    /// translate.
    pub fn is_supported(&self, _from: &str, _to: &str) -> (supported: Result<bool, AppError>)
        ensures
            supported == Ok::<bool, AppError>(true),
    {
        Ok(true)
    }

    /// The request that asks the worker to translate `text` from `from` to
    /// `to`.
    pub fn translate(&self, from: &str, to: &str, text: &str) -> (request: WorkerRequest)
        ensures
            request@ == translate_request(self.address(), text@, from@, to@),
    {
        let mut members: Vec<(String, String)> = Vec::new();
        members.push(member("text", text));
        members.push(member("from", from));
        members.push(member("to", to));
        let request = WorkerRequest { url: self.worker_url.clone().concat("/translate"), members };
        assert(request@.1 =~= translate_request(self.address(), text@, from@, to@).1);
        request
    }
}

/// Concludes a translation by the worker's reply: the text of a document
/// that holds one; a translation error for a refusal, with the worker's
/// reason, for a body that cannot be read, and for a document without a
/// text.
pub fn translated(reply: Reply) -> (answer: Result<String, AppError>)
    ensures
        match reply {
            Reply::Document { text: Some(text) } => answer == Ok::<String, AppError>(text),
            Reply::Document { text: None } => answer matches Err(
                AppError::TranslationError(message),
            ) && message@ == "Invalid response format"@,
            Reply::Unreadable => answer matches Err(AppError::TranslationError(message))
                && message@ == "Failed to parse translation response"@,
            Reply::Refused { body } => answer matches Err(AppError::TranslationError(message))
                && message@ == translation_failed_message(body@),
        },
{
    match reply {
        Reply::Document { text: Some(text) } => Ok(text),
        Reply::Document { text: None } => Err(
            AppError::TranslationError(String::from_str("Invalid response format")),
        ),
        Reply::Unreadable => Err(
            AppError::TranslationError(String::from_str("Failed to parse translation response")),
        ),
        Reply::Refused { body } => Err(
            AppError::TranslationError(
                String::from_str("Translation failed: ").concat(body.as_str()),
            ),
        ),
    }
}

/// The load cache works: once the worker has confirmed a model, a further
/// load of it sends nothing, confirming it again records nothing new, and
/// no model is ever recorded twice.
pub proof fn lemma_load_cache(loaded: Seq<Seq<char>>, language_pair: Seq<char>)
    requires
        loaded.no_duplicates(),
    ensures
        ({
            let after = if loaded.contains(language_pair) {
                loaded
            } else {
                loaded.push(language_pair)
            };
            after.contains(language_pair) && after.no_duplicates() && (if after.contains(
                language_pair,
            ) {
                after
            } else {
                after.push(language_pair)
            }) == after
        }),
{
    if !loaded.contains(language_pair) {
        assert(loaded.push(language_pair)[loaded.len() as int] == language_pair);
    }
}

} // verus!

//! The pool of engine instances with the counter that spreads translation
//! calls over them. Models are loaded in lockstep, so that any instance can
//! serve any supported pair.

use crate::dispatch::{
    call_serving, lemma_each_slot_selected_once, next_ticket, slot_for, slot_of, ticket_after,
    ticket_space, RoundRobin,
};
use crate::engine::{
    lemma_registered, load_outcome, load_recorded, registered, LanguagePair, LoadStep, PairView,
    TranslationCall, WasmEngine,
};
use crate::error::BridgeError;
use vstd::prelude::*;

verus! {

/// Where a translation call goes, and what it carries.
#[derive(Debug, PartialEq, Eq)]
pub struct Dispatch {
    /// The pool slot of the selected instance.
    pub slot: usize,
    /// The call to issue into that instance.
    pub call: TranslationCall,
}

/// A pool as contracts see it.
pub struct PoolView {
    /// The number of engine instances.
    pub workers: nat,
    /// The pairs loaded, in the order of their handles.
    pub loaded: Seq<PairView>,
    /// The ticket that the next translation call receives.
    pub ticket: nat,
}

impl PoolView {
    /// Whether `pair` is loaded.
    pub open spec fn is_loaded(self, pair: PairView) -> bool {
        self.loaded.contains(pair)
    }

    /// The pool after `pair` was loaded into it.
    pub open spec fn committed(self, pair: PairView) -> PoolView {
        PoolView { loaded: registered(self.loaded, pair), ..self }
    }

    /// The pool after a translation call was routed: the counter has moved
    /// on, unless there is no instance to route to.
    pub open spec fn routed(self) -> PoolView {
        if self.workers == 0 {
            self
        } else {
            PoolView { ticket: next_ticket(self.ticket), ..self }
        }
    }
}

/// The engine instances of the gateway with the counter that spreads calls
/// over them.
#[derive(Debug)]
pub struct Pool {
    instances: Vec<WasmEngine>,
    loaded: WasmEngine,
    counter: RoundRobin,
}

impl Pool {
    /// The workers, the loaded pairs and the next ticket.
    pub closed spec fn view(&self) -> PoolView {
        PoolView {
            workers: self.instances@.len(),
            loaded: self.loaded@,
            ticket: self.counter.ticket(),
        }
    }

    /// The pairs registered in the instance at `slot`.
    pub closed spec fn table(&self, slot: int) -> Seq<PairView> {
        self.instances@[slot]@
    }

    /// Lockstep: every instance holds exactly the loaded pairs, under the
    /// same handles.
    #[verifier::type_invariant]
    spec fn lockstep(&self) -> bool {
        forall|slot: int|
            0 <= slot < self.instances@.len() ==> (#[trigger] self.instances@[slot])@
                == self.loaded@
    }

    /// The next ticket is one that the counter can hold.
    pub proof fn lemma_ticket_bounded(&self)
        ensures
            self@.ticket < ticket_space(),
    {
        self.counter.lemma_ticket_bounded();
    }

    /// A pool of `workers` fresh instances with nothing loaded.
    pub fn new(workers: usize) -> (pool: Self)
        ensures
            pool@ == (PoolView { workers: workers as nat, loaded: Seq::empty(), ticket: 0 }),
    {
        let mut instances: Vec<WasmEngine> = Vec::new();
        while instances.len() < workers
            invariant
                instances@.len() <= workers,
                forall|slot: int|
                    0 <= slot < instances@.len() ==> (#[trigger] instances@[slot])@
                        == Seq::<PairView>::empty(),
            decreases workers - instances@.len(),
        {
            instances.push(WasmEngine::new());
        }
        Pool { instances, loaded: WasmEngine::new(), counter: RoundRobin::new() }
    }

    /// The number of engine instances.
    pub fn workers(&self) -> (n: usize)
        ensures
            n as nat == self@.workers,
    {
        self.instances.len()
    }

    /// The instance at `slot`, where the pool has one there. Every instance
    /// holds exactly the loaded pairs, under the same handles as every other
    /// instance, and no pair twice.
    pub fn instance(&self, slot: usize) -> (found: Option<&WasmEngine>)
        ensures
            found is Some <==> slot < self@.workers,
            found matches Some(engine) ==> engine@ == self@.loaded && engine@ == self.table(
                slot as int,
            ) && engine@.no_duplicates(),
    {
        if slot >= self.instances.len() {
            return None;
        }
        let engine = &self.instances[slot];
        proof {
            use_type_invariant(self);
            use_type_invariant(engine);
        }
        Some(engine)
    }

    /// Tests whether the pair from `from` to `to` is loaded.
    pub fn is_loaded(&self, from: &str, to: &str) -> (loaded: bool)
        ensures
            loaded == self@.is_loaded((from@, to@)),
    {
        self.loaded.handle_of(&LanguagePair::new(from, to)).is_some()
    }

    /// Decides what a load of the model for the pair from `from` to `to`
    /// has to do, out of a directory that lists `names`. A loaded pair needs
    /// nothing, whatever the directory holds: no file is read again and
    /// nothing is registered twice. A directory that lacks a role is refused
    /// with the roles it lacks. Else the files are returned with which the
    /// model is to be constructed in every instance, and the handle that it
    /// will get in each. Nothing is registered here: that waits for
    /// `model_loaded`.
    pub fn load_model(&self, from: &str, to: &str, names: &Vec<String>) -> (step: Result<
        LoadStep,
        BridgeError,
    >)
        ensures
            load_outcome(self@.loaded, (from@, to@), names@, step),
    {
        self.loaded.load_model(from, to, names)
    }

    /// Records how the construction of the model for the pair from `from`
    /// to `to` ended: `constructed` is `Ok` where every instance has
    /// constructed it. Then the pair is registered in every instance alike,
    /// under one handle, which is returned. A failure in any instance,
    /// whatever its cause, is passed on and leaves every instance as it
    /// was: the pair is not loaded.
    pub fn model_loaded(&mut self, from: &str, to: &str, constructed: Result<(), BridgeError>) -> (recorded:
        Result<usize, BridgeError>)
        ensures
            load_recorded(
                old(self)@.loaded,
                (from@, to@),
                constructed,
                final(self)@.loaded,
                recorded,
            ),
            final(self)@.workers == old(self)@.workers,
            final(self)@.ticket == old(self)@.ticket,
    {
        proof {
            use_type_invariant(&*self);
        }
        if let Err(failure) = constructed {
            return Err(failure);
        }
        let ghost before = self.loaded@;
        let mut instances: Vec<WasmEngine> = Vec::new();
        std::mem::swap(&mut self.instances, &mut instances);
        let mut loaded = WasmEngine::new();
        std::mem::swap(&mut self.loaded, &mut loaded);
        let pair = LanguagePair::new(from, to);
        let handle = loaded.register(pair.duplicate());
        let mut slot: usize = 0;
        while slot < instances.len()
            invariant
                slot <= instances@.len(),
                instances@.len() == old(self).instances@.len(),
                loaded@ == registered(before, pair@),
                forall|k: int| 0 <= k < slot ==> (#[trigger] instances@[k])@ == loaded@,
                forall|k: int|
                    slot <= k < instances@.len() ==> (#[trigger] instances@[k])@ == before,
            decreases instances@.len() - slot,
        {
            instances[slot].register(pair.duplicate());
            slot += 1;
        }
        std::mem::swap(&mut self.loaded, &mut loaded);
        std::mem::swap(&mut self.instances, &mut instances);
        Ok(handle)
    }

    /// Routes the translation of `text` from `source` to `target` for a host
    /// that keeps the shared counter itself, in an atomic, and has drawn
    /// `ticket` from it: the pool is only read. An empty pool is refused.
    /// Otherwise the instance at the slot of the ticket is selected, whatever
    /// the call carries. Where that instance holds no model for the pair the
    /// call is refused, naming the pair, and no text comes back.
    pub fn dispatch(&self, ticket: usize, source: &str, target: &str, text: &str) -> (routed:
        Result<Dispatch, BridgeError>)
        ensures
            dispatch_outcome(self@, ticket as nat, (source@, target@), text@, routed),
    {
        proof {
            use_type_invariant(self);
        }
        if self.instances.len() == 0 {
            return Err(BridgeError::NoWorkers);
        }
        let slot = slot_for(ticket, self.instances.len());
        match self.instances[slot].translate(text, source, target) {
            Ok(call) => Ok(Dispatch { slot, call }),
            Err(e) => Err(e),
        }
    }

    /// Routes the translation of `text` from `source` to `target` by the
    /// pool's own counter: the call gets the next ticket, and the counter
    /// moves on unless the pool is empty.
    pub fn translate(&mut self, source: &str, target: &str, text: &str) -> (routed: Result<
        Dispatch,
        BridgeError,
    >)
        ensures
            final(self)@ == old(self)@.routed(),
            dispatch_outcome(old(self)@, old(self)@.ticket, (source@, target@), text@, routed),
    {
        proof {
            use_type_invariant(&*self);
        }
        let mut counter = self.counter;
        let ticket = counter.peek();
        let _ = counter.select(self.instances.len());
        self.counter = counter;
        self.dispatch(ticket, source, target, text)
    }
}

/// What routing a call with `ticket` for `pair` and `text` yields in `pool`.
pub open spec fn dispatch_outcome(
    pool: PoolView,
    ticket: nat,
    pair: PairView,
    text: Seq<char>,
    routed: Result<Dispatch, BridgeError>,
) -> bool {
    match routed {
        Ok(dispatch) => pool.workers > 0 && dispatch.slot as nat == slot_of(ticket, pool.workers)
            && dispatch.call.handle < pool.loaded.len() && pool.loaded[dispatch.call.handle as int]
            == pair && dispatch.call.carries(dispatch.call.handle, text),
        Err(BridgeError::NoWorkers) => pool.workers == 0,
        Err(BridgeError::ModelNotLoaded { source, target }) => pool.workers > 0 && !pool.is_loaded(
            pair,
        ) && source@ == pair.0 && target@ == pair.1,
        Err(_) => false,
    }
}

/// A call for a pair that is not loaded never yields text: whatever the
/// ticket, a pool with instances answers it with `ModelNotLoaded`, naming
/// the pair, and a call for a loaded pair is always dispatched.
pub proof fn lemma_unloaded_pair_is_refused(
    pool: PoolView,
    ticket: nat,
    pair: PairView,
    text: Seq<char>,
    routed: Result<Dispatch, BridgeError>,
)
    requires
        pool.workers > 0,
        dispatch_outcome(pool, ticket, pair, text, routed),
    ensures
        !pool.is_loaded(pair) <==> routed is Err,
        routed matches Err(e) ==> (e matches BridgeError::ModelNotLoaded { source, target }
            && source@ == pair.0 && target@ == pair.1),
{
    if let Ok(dispatch) = routed {
        assert(pool.loaded[dispatch.call.handle as int] == pair);
    }
}

/// The pool after `calls` translation calls were routed.
pub open spec fn after_calls(pool: PoolView, calls: nat) -> PoolView
    decreases calls,
{
    if calls == 0 {
        pool
    } else {
        after_calls(pool, (calls - 1) as nat).routed()
    }
}

/// The slot that the call number `call`, counted from zero, is routed to.
pub open spec fn slot_of_call(pool: PoolView, call: nat) -> nat {
    slot_of(after_calls(pool, call).ticket, pool.workers)
}

/// Routing changes nothing but the counter, which moves on by one ticket
/// per call.
pub proof fn lemma_after_calls(pool: PoolView, calls: nat)
    requires
        pool.workers > 0,
    ensures
        after_calls(pool, calls).workers == pool.workers,
        after_calls(pool, calls).loaded == pool.loaded,
        after_calls(pool, calls).ticket == ticket_after(pool.ticket, calls),
    decreases calls,
{
    if calls > 0 {
        lemma_after_calls(pool, (calls - 1) as nat);
    }
}

/// Across as many consecutive calls as the pool has instances, each
/// instance is selected exactly once, whatever the calls carry and whether
/// or not they find a model: no two calls of the round share a slot, and
/// every slot is taken by the call at position `call_serving`. It holds
/// while the counter does not wrap inside the round, and across a wrap when
/// the number of instances divides the number of tickets.
pub proof fn lemma_round_selects_each_instance_once(pool: PoolView)
    requires
        pool.workers > 0,
        pool.ticket < ticket_space(),
        pool.ticket + pool.workers <= ticket_space() || ticket_space() % pool.workers == 0,
    ensures
        forall|i: nat, j: nat|
            i < pool.workers && j < pool.workers && i != j ==> slot_of_call(pool, i)
                != slot_of_call(pool, j),
        forall|slot: nat|
            slot < pool.workers ==> #[trigger] call_serving(pool.ticket, pool.workers, slot)
                < pool.workers && slot_of_call(
                pool,
                call_serving(pool.ticket, pool.workers, slot),
            ) == slot,
{
    lemma_each_slot_selected_once(pool.ticket, pool.workers);
    assert forall|slot: nat| slot < pool.workers implies #[trigger] call_serving(
        pool.ticket,
        pool.workers,
        slot,
    ) < pool.workers && slot_of_call(pool, call_serving(pool.ticket, pool.workers, slot))
        == slot by {
        lemma_after_calls(pool, call_serving(pool.ticket, pool.workers, slot));
    }
    assert forall|i: nat, j: nat| i < pool.workers && j < pool.workers && i != j implies slot_of_call(
        pool,
        i,
    ) != slot_of_call(pool, j) by {
        lemma_after_calls(pool, i);
        lemma_after_calls(pool, j);
    }
}

/// Loading is idempotent: once the model of a pair is constructed and
/// recorded, a second load of the pair, from whatever directory, is answered
/// with `AlreadyLoaded`, so that no file is read again, and recording it
/// once more leaves the pool as it is.
pub proof fn lemma_load_is_idempotent(
    pool: PoolView,
    pair: PairView,
    again: Seq<String>,
    second: Result<LoadStep, BridgeError>,
)
    requires
        pool.loaded.no_duplicates(),
        load_outcome(pool.committed(pair).loaded, pair, again, second),
    ensures
        second == Ok::<LoadStep, BridgeError>(LoadStep::AlreadyLoaded),
        pool.committed(pair).is_loaded(pair),
        pool.committed(pair).committed(pair) == pool.committed(pair),
        pool.committed(pair).loaded.no_duplicates(),
{
    lemma_registered(pool.loaded, pair);
}

/// A load that fails registers nothing, whatever the cause: deciding on a
/// load changes no table, and a construction that is recorded as failed
/// leaves the table as it was, so that the pair is loaded afterwards only
/// if it was before.
pub proof fn lemma_failed_load_registers_nothing(
    before: Seq<PairView>,
    pair: PairView,
    constructed: Result<(), BridgeError>,
    after: Seq<PairView>,
    recorded: Result<usize, BridgeError>,
)
    requires
        load_recorded(before, pair, constructed, after, recorded),
    ensures
        recorded is Err <==> constructed is Err,
        recorded is Err ==> after == before,
        recorded is Ok ==> after.contains(pair),
{
    if let Ok(handle) = recorded {
        assert(after[handle as int] == pair);
    }
}

/// A load from a directory that lacks a role fails with exactly the roles
/// that it lacks, unless the pair is loaded already, and a failed load
/// leaves nothing registered: the outcome is an error only in that case.
pub proof fn lemma_incomplete_directory_is_refused(
    loaded: Seq<PairView>,
    pair: PairView,
    names: Seq<String>,
    step: Result<LoadStep, BridgeError>,
)
    requires
        load_outcome(loaded, pair, names, step),
        !loaded.contains(pair),
    ensures
        crate::artifacts::missing_roles(names).len() > 0 <==> step is Err,
        step matches Err(e) ==> (e matches BridgeError::MissingArtifact(roles) && roles@
            == crate::artifacts::missing_roles(names)),
{
}

} // verus!

//! Round-robin selection among the engine instances of a pool.

use crate::error::BridgeError;
use vstd::arithmetic::div_mod::{
    lemma_add_mod_noop, lemma_mod_add_multiples_vanish, lemma_mod_equivalence, lemma_mod_mod,
    lemma_fundamental_div_mod, lemma_small_mod,
};
use vstd::prelude::*;

verus! {

/// The number of distinct tickets: one more than the largest counter value.
pub open spec fn ticket_space() -> nat {
    (usize::MAX as nat) + 1
}

/// The pool slot that serves the call holding ticket `ticket`, in a pool of
/// `workers` instances.
pub open spec fn slot_of(ticket: nat, workers: nat) -> nat
    recommends
        workers > 0,
{
    ticket % workers
}

/// The ticket that follows `ticket`: one more, wrapping to zero past the
/// largest counter value.
pub open spec fn next_ticket(ticket: nat) -> nat {
    if ticket + 1 == ticket_space() {
        0
    } else {
        ticket + 1
    }
}

/// The ticket handed out `calls` calls after the one that got `start`.
pub open spec fn ticket_after(start: nat, calls: nat) -> nat
    decreases calls,
{
    if calls == 0 {
        start
    } else {
        next_ticket(ticket_after(start, (calls - 1) as nat))
    }
}

/// Among `workers` consecutive calls that begin at ticket `start`, the position
/// of the call that is routed to `slot`.
pub open spec fn call_serving(start: nat, workers: nat, slot: nat) -> nat
    recommends
        workers > 0,
        slot < workers,
{
    let first = start % workers;
    if slot >= first {
        (slot - first) as nat
    } else {
        (slot + workers - first) as nat
    }
}

/// Picks the slot for one ticket, for a host that keeps the shared counter
/// in an atomic and draws the ticket itself.
pub fn slot_for(ticket: usize, workers: usize) -> (slot: usize)
    requires
        workers > 0,
    ensures
        slot as nat == slot_of(ticket as nat, workers as nat),
        slot < workers,
{
    ticket % workers
}

/// The counter behind pure round-robin selection: no load awareness, no
/// affinity.
#[derive(Debug, Clone, Copy, PartialEq, Eq)]
pub struct RoundRobin {
    next: usize,
}

impl RoundRobin {
    /// The ticket that the next call will receive.
    pub closed spec fn ticket(&self) -> nat {
        self.next as nat
    }

    /// Every counter value is a ticket below `ticket_space()`.
    pub proof fn lemma_ticket_bounded(&self)
        ensures
            self.ticket() < ticket_space(),
    {
    }

    /// A counter that starts at ticket zero.
    pub fn new() -> (counter: Self)
        ensures
            counter.ticket() == 0,
    {
        RoundRobin { next: 0 }
    }

    /// A counter that will hand out `ticket` next.
    pub fn starting_at(ticket: usize) -> (counter: Self)
        ensures
            counter.ticket() == ticket as nat,
    {
        RoundRobin { next: ticket }
    }

    /// The ticket that the next call will receive.
    pub fn peek(&self) -> (ticket: usize)
        ensures
            ticket as nat == self.ticket(),
    {
        self.next
    }

    /// Selects the slot for the next call in a pool of `workers` instances and
    /// advances the counter. An empty pool is refused and leaves the counter
    /// as it was.
    pub fn select(&mut self, workers: usize) -> (picked: Result<usize, BridgeError>)
        ensures
            workers == 0 ==> picked == Err::<usize, BridgeError>(BridgeError::NoWorkers)
                && final(self).ticket() == old(self).ticket(),
            workers > 0 ==> picked == Ok::<usize, BridgeError>(
                slot_of(old(self).ticket(), workers as nat) as usize,
            ) && final(self).ticket() == next_ticket(old(self).ticket()),
            picked matches Ok(slot) ==> slot < workers,
    {
        if workers == 0 {
            return Err(BridgeError::NoWorkers);
        }
        let ticket = self.next;
        self.next = ticket.wrapping_add(1);
        Ok(ticket % workers)
    }
}

/// While the counter does not pass its largest value, the ticket after `calls`
/// calls is `start + calls`.
proof fn lemma_ticket_after_plain(start: nat, calls: nat)
    requires
        start + calls < ticket_space(),
    ensures
        ticket_after(start, calls) == start + calls,
    decreases calls,
{
    if calls > 0 {
        lemma_ticket_after_plain(start, (calls - 1) as nat);
    }
}

/// Tickets advance modulo the ticket space.
proof fn lemma_ticket_after_wraps(start: nat, calls: nat)
    requires
        start < ticket_space(),
    ensures
        ticket_after(start, calls) == (start + calls) % ticket_space(),
    decreases calls,
{
    let m = ticket_space() as int;
    if calls == 0 {
        lemma_small_mod(start, ticket_space());
    } else {
        lemma_ticket_after_wraps(start, (calls - 1) as nat);
        let before = (start + calls - 1) % m;
        lemma_add_mod_noop((start + calls - 1) as int, 1, m);
        if before + 1 == m {
            lemma_small_mod(1, ticket_space());
            vstd::arithmetic::div_mod::lemma_mod_self_0(m);
        } else {
            if m > 1 {
                lemma_small_mod(1, ticket_space());
            }
            lemma_small_mod((before + 1) as nat, ticket_space());
        }
    }
}

/// When the window of calls stays below the largest counter value, or the pool
/// size divides the ticket space, the slot of the call `calls` after `start` is
/// `(start + calls) % workers`.
proof fn lemma_slot_after(start: nat, workers: nat, calls: nat)
    requires
        workers > 0,
        start < ticket_space(),
        start + calls < ticket_space() || ticket_space() % workers == 0,
    ensures
        slot_of(ticket_after(start, calls), workers) == (start + calls) % workers,
{
    if start + calls < ticket_space() {
        lemma_ticket_after_plain(start, calls);
    } else {
        lemma_ticket_after_wraps(start, calls);
        let m = ticket_space() as int;
        let w = workers as int;
        lemma_fundamental_div_mod(m, w);
        let q = m / w;
        assert(m == w * q);
        assert(q > 0) by (nonlinear_arith)
            requires
                m == w * q,
                m > 0,
                w > 0,
        ;
        lemma_mod_mod((start + calls) as int, w, q);
    }
}

/// Fair assignment: over `workers` consecutive calls on a pool of `workers`
/// instances, no two calls are routed to the same slot, and every slot is
/// served by the call at position `call_serving`, whatever the calls carry. It holds while the counter does not wrap inside the window, and
/// across a wrap when the pool size divides the ticket space.
pub proof fn lemma_each_slot_selected_once(start: nat, workers: nat)
    requires
        workers > 0,
        start < ticket_space(),
        start + workers <= ticket_space() || ticket_space() % workers == 0,
    ensures
        forall|i: nat, j: nat|
            i < workers && j < workers && i != j ==> slot_of(ticket_after(start, i), workers)
                != slot_of(ticket_after(start, j), workers),
        forall|slot: nat|
            slot < workers ==> #[trigger] call_serving(start, workers, slot) < workers && slot_of(
                ticket_after(start, call_serving(start, workers, slot)),
                workers,
            ) == slot,
{
    let w = workers as int;
    assert forall|i: nat, j: nat| i < workers && j < workers && i != j implies slot_of(
        ticket_after(start, i),
        workers,
    ) != slot_of(ticket_after(start, j), workers) by {
        lemma_slot_after(start, workers, i);
        lemma_slot_after(start, workers, j);
        lemma_mod_equivalence((start + i) as int, (start + j) as int, w);
        lemma_mod_equivalence((start + j) as int, (start + i) as int, w);
        if i > j {
            lemma_small_mod((i - j) as nat, workers);
        } else {
            lemma_small_mod((j - i) as nat, workers);
        }
    }
    assert forall|slot: nat| slot < workers implies #[trigger] call_serving(start, workers, slot)
        < workers && slot_of(
        ticket_after(start, call_serving(start, workers, slot)),
        workers,
    ) == slot by {
        let i = call_serving(start, workers, slot);
        lemma_slot_after(start, workers, i);
        lemma_add_mod_noop(start as int, i as int, w);
        lemma_small_mod(i, workers);
        lemma_small_mod(slot, workers);
        if slot < start % workers {
            lemma_mod_add_multiples_vanish(slot as int, w);
        }
        assert(slot_of(ticket_after(start, i), workers) == slot);
    }
}

} // verus!

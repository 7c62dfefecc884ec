//! The shared store: two slots, each behind a lock of its own.
//!
//! A store is handed by shared reference to every connection handler and
//! every query handler. Each operation takes the lock of the one slot it
//! works on, reads or replaces the whole text while it holds the lock, and
//! releases the lock before it returns. The two slots never wait for each
//! other. That a lock lets one caller in at a time, which is what keeps a
//! read from seeing parts of two writes, is the lock's own promise.
//!
//! What a slot holds when a lock is granted, and whether it is granted at
//! all, depends on the other threads. So no operation promises success, and
//! none says what a later operation will find. Each says which lock it took
//! and what text stood behind that lock while it was held: see
//! [`SharedStateStore::stood_behind_lock`].

use crate::history::fresh;
use crate::history::Contents;
use crate::slot::StateSlot;
use std::sync::Mutex;
use std::sync::MutexGuard;
use std::sync::PoisonError;
use vstd::prelude::*;

verus! {

/// `std::sync::Mutex`, a value behind a lock.
#[verifier::external_type_specification]
#[verifier::external_body]
#[verifier::reject_recursive_types(T)]
pub struct ExMutex<T: ?Sized>(Mutex<T>);

/// `std::sync::MutexGuard`, the proof that a lock is held. The lock is
/// released when the guard goes out of scope.
#[verifier::external_type_specification]
#[verifier::external_body]
#[verifier::reject_recursive_types(T)]
pub struct ExMutexGuard<'a, T: ?Sized + 'a>(MutexGuard<'a, T>);

/// `std::sync::PoisonError`, the error of a lock whose holder panicked.
#[verifier::external_type_specification]
#[verifier::external_body]
#[verifier::reject_recursive_types(T)]
pub struct ExPoisonError<T>(PoisonError<T>);

/// The text that `lock` was made with. It says nothing of what the lock
/// holds now.
pub uninterp spec fn made_with(lock: Mutex<StateSlot>) -> Seq<char>;

/// The text of the slot behind the held lock `guard`. As long as the guard
/// lives no other thread reaches the slot, so the text changes only through
/// the guard itself.
pub uninterp spec fn held_text(guard: MutexGuard<StateSlot>) -> Seq<char>;

/// Whether `guard` was granted by `lock`: a guard stands for one lock, the
/// one that was asked for it, for as long as it lives.
pub uninterp spec fn taken_from(guard: MutexGuard<StateSlot>, lock: Mutex<StateSlot>) -> bool;

/// Calls `Mutex::new`: a new, unlocked lock around `slot`. The claim is that
/// the lock was made with the text of `slot`.
#[verifier::external_body]
fn new_lock(slot: StateSlot) -> (lock: Mutex<StateSlot>)
    ensures
        made_with(lock) == slot@,
{
    Mutex::new(slot)
}

/// Calls `Mutex::lock`: waits until the lock is free and takes it. The
/// result is an error when an earlier holder panicked. The claim is that a
/// guard that is granted is a guard of the lock that was asked. Whether the
/// lock is granted, and what the slot then holds, depends on the other
/// threads: nothing is claimed of that.
///
/// `Mutex::lock` may panic or wait for ever when the calling thread holds the
/// same lock already. No function of this file calls it while it holds a
/// guard, and no guard of a store's lock leaves the function that took it.
#[verifier::external_body]
fn acquire<'a>(lock: &'a Mutex<StateSlot>) -> (granted: Result<
    MutexGuard<'a, StateSlot>,
    PoisonError<MutexGuard<'a, StateSlot>>,
>)
    ensures
        granted matches Ok(guard) ==> taken_from(guard, *lock),
{
    lock.lock()
}

/// Calls `MutexGuard::deref`: the slot behind a held lock, to read. The
/// claim is that the slot is the one the guard stands for.
#[verifier::external_body]
fn held<'a, 'b>(guard: &'b MutexGuard<'a, StateSlot>) -> (slot: &'b StateSlot)
    ensures
        slot@ == held_text(*guard),
{
    &**guard
}

/// Calls `MutexGuard::deref_mut`: the slot behind a held lock, to change.
/// The claim is that the slot is the one the guard stands for, that what is
/// written to it is what the guard then holds, and that the guard goes on
/// standing for the same lock.
#[verifier::external_body]
fn held_mut<'a, 'b>(guard: &'b mut MutexGuard<'a, StateSlot>) -> (slot: &'b mut StateSlot)
    ensures
        slot@ == held_text(*old(guard)),
        held_text(*final(guard)) == final(slot)@,
        forall|lock: Mutex<StateSlot>|
            taken_from(*final(guard), lock) == #[trigger] taken_from(*old(guard), lock),
{
    &mut **guard
}

/// A lock could not be taken, because an earlier holder left it in a state
/// that cannot be trusted. The operation that met it did nothing.
#[derive(Debug, Clone, Copy, PartialEq, Eq)]
pub struct LockFailure;

/// The names of the two slots.
#[derive(Debug, Clone, Copy, PartialEq, Eq)]
pub enum Slot {
    /// The latest state that a connection sent.
    CurrentState,
    /// The latest scores that a client wrote.
    CurrentScores,
}

/// The two slots, each behind its own lock.
pub struct SharedStateStore {
    current_state: Mutex<StateSlot>,
    current_scores: Mutex<StateSlot>,
}

impl SharedStateStore {
    /// The lock of the slot `slot`.
    pub closed spec fn lock_view(&self, slot: Slot) -> Mutex<StateSlot> {
        match slot {
            Slot::CurrentState => self.current_state,
            Slot::CurrentScores => self.current_scores,
        }
    }

    /// The text that the slot `slot` held when the store was made.
    pub closed spec fn initial_text(&self, slot: Slot) -> Seq<char> {
        made_with(self.lock_view(slot))
    }

    /// Whether `text` stood in the slot `slot` while some caller held the
    /// lock of that slot. A read returns such a text, and a write leaves its
    /// text so.
    pub open spec fn stood_behind_lock(&self, slot: Slot, text: Seq<char>) -> bool {
        exists|guard: MutexGuard<StateSlot>| #[trigger]
            taken_from(guard, self.lock_view(slot)) && held_text(guard) == text
    }

    /// What the two slots held when the store was made.
    pub open spec fn initial_contents(&self) -> Contents {
        Contents {
            state: self.initial_text(Slot::CurrentState),
            scores: self.initial_text(Slot::CurrentScores),
        }
    }

    /// A store with two empty slots.
    pub fn new() -> (store: Self)
        ensures
            store.initial_text(Slot::CurrentState) == Seq::<char>::empty(),
            store.initial_text(Slot::CurrentScores) == Seq::<char>::empty(),
            store.initial_contents() == fresh(),
    {
        SharedStateStore {
            current_state: new_lock(StateSlot::new()),
            current_scores: new_lock(StateSlot::new()),
        }
    }

    /// The lock of the slot `slot`.
    fn lock_of(&self, slot: Slot) -> (lock: &Mutex<StateSlot>)
        ensures
            *lock == self.lock_view(slot),
    {
        match slot {
            Slot::CurrentState => &self.current_state,
            Slot::CurrentScores => &self.current_scores,
        }
    }

    /// Copies the text of `slot` while holding its lock. Where it succeeds,
    /// the text is what stood behind the lock of `slot`, and of no other
    /// slot, while this call held it. Whether it succeeds is for the lock to
    /// say.
    pub fn get(&self, slot: Slot) -> (outcome: Result<String, LockFailure>)
        ensures
            outcome matches Ok(text) ==> self.stood_behind_lock(slot, text@),
    {
        let granted = acquire(self.lock_of(slot));
        read_granted(&granted)
    }

    /// Replaces the text of `slot` by `text` while holding its lock. Where
    /// it succeeds, `text` is what stood behind the lock of `slot`, and of
    /// no other slot, when this call released it. Whether it succeeds is for
    /// the lock to say.
    pub fn set(&self, slot: Slot, text: String) -> (outcome: Result<(), LockFailure>)
        ensures
            outcome is Ok ==> self.stood_behind_lock(slot, text@),
    {
        match write_granted(acquire(self.lock_of(slot)), text) {
            Ok(_) => Ok(()),
            Err(failure) => Err(failure),
        }
    }
}

/// Copies the text behind a held lock.
pub fn read_under(guard: &MutexGuard<StateSlot>) -> (text: String)
    ensures
        text@ == held_text(*guard),
{
    held(guard).get()
}

/// Replaces the text behind a held lock by `text`, as a whole. The guard
/// goes on standing for the same lock.
pub fn write_under(guard: &mut MutexGuard<StateSlot>, text: String)
    ensures
        held_text(*final(guard)) == text@,
        forall|lock: Mutex<StateSlot>|
            taken_from(*final(guard), lock) == #[trigger] taken_from(*old(guard), lock),
{
    held_mut(guard).set(text);
}

/// What a read returns, given the answer of the lock: a copy of the text
/// behind the lock where it was granted, the failure where it was not. The
/// answer is only borrowed, so the text behind the lock stays as it is.
pub fn read_granted(
    granted: &Result<MutexGuard<StateSlot>, PoisonError<MutexGuard<StateSlot>>>,
) -> (outcome: Result<String, LockFailure>)
    ensures
        match *granted {
            Ok(guard) => outcome matches Ok(text) && text@ == held_text(guard),
            Err(_) => outcome is Err,
        },
{
    match granted {
        Ok(guard) => Ok(read_under(guard)),
        Err(_) => Err(LockFailure),
    }
}

/// What a write does and returns, given the answer of the lock. Where the
/// lock was granted, the text behind it is replaced by `text`, and the guard
/// is handed back, still the guard of the same lock: the lock is released
/// when the caller lets go of it. Where the lock was not granted, nothing is
/// written and the write fails.
pub fn write_granted<'a>(
    granted: Result<MutexGuard<'a, StateSlot>, PoisonError<MutexGuard<'a, StateSlot>>>,
    text: String,
) -> (outcome: Result<MutexGuard<'a, StateSlot>, LockFailure>)
    ensures
        match granted {
            Ok(before) => outcome matches Ok(after) && held_text(after) == text@ && (forall|
                lock: Mutex<StateSlot>,
            |
                taken_from(after, lock) == #[trigger] taken_from(before, lock)),
            Err(_) => outcome is Err,
        },
{
    match granted {
        Ok(mut guard) => {
            write_under(&mut guard, text);
            Ok(guard)
        },
        Err(_) => Err(LockFailure),
    }
}

} // verus!

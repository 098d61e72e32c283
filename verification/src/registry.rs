//! The slot that holds the loaded native library.
//!
//! A registry starts out empty. A successful load puts the resolved library
//! into the slot, replacing whatever was there; a failed load changes nothing.
//! Nothing empties the slot again. Opening the library file is left to the
//! caller, who hands the outcome of that attempt to [`load`].

use vstd::prelude::*;

verus! {

/// The slot for at most one resolved library of type `L`.
pub struct Registry<L> {
    slot: Option<L>,
}

/// The signal that a native call was attempted while the slot was empty.
#[derive(Clone, Copy, Debug, PartialEq, Eq)]
pub struct NotLoaded;

impl<L> View for Registry<L> {
    type V = Option<L>;

    /// What the slot holds: `None` before the first successful load.
    closed spec fn view(&self) -> Option<L> {
        self.slot
    }
}

/// What a slot holds after one load attempt: the new library if the attempt
/// succeeded, and what it held before if the attempt failed.
pub open spec fn slot_after<L, E>(slot: Option<L>, attempt: Result<L, E>) -> Option<L> {
    match attempt {
        Ok(library) => Some(library),
        Err(_) => slot,
    }
}

/// What a slot holds after a series of load attempts, the oldest first.
pub open spec fn slot_after_all<L, E>(slot: Option<L>, attempts: Seq<Result<L, E>>) -> Option<L>
    decreases attempts.len(),
{
    if attempts.len() == 0 {
        slot
    } else {
        slot_after(slot_after_all(slot, attempts.drop_last()), attempts.last())
    }
}

/// What a load attempt reports to its caller: success, or the loader's error
/// as it came.
pub open spec fn load_outcome<L, E>(attempt: Result<L, E>) -> Result<(), E> {
    match attempt {
        Ok(_) => Ok(()),
        Err(error) => Err(error),
    }
}

impl<L> Registry<L> {
    /// Whether a library has been loaded.
    pub open spec fn loaded(&self) -> bool {
        self@ is Some
    }

    /// The loaded library.
    pub open spec fn library(&self) -> L
        recommends
            self.loaded(),
    {
        self@->0
    }

    /// An empty registry.
    pub fn new() -> (registry: Self)
        ensures
            registry@ is None,
    {
        Registry { slot: None }
    }

    /// Tells whether a library has been loaded.
    pub fn is_loaded(&self) -> (loaded: bool)
        ensures
            loaded == self.loaded(),
    {
        self.slot.is_some()
    }
}

impl NotLoaded {
    /// The text that goes with the signal.
    pub fn message(&self) -> (text: String)
        ensures
            text@ == "Expected library to be loaded."@,
    {
        "Expected library to be loaded.".to_string()
    }
}

/// The slot of `registry`, for reading.
pub fn lib_ref<L>(registry: &Registry<L>) -> (slot: &Option<L>)
    ensures
        *slot == registry@,
{
    &registry.slot
}

/// Applies the outcome of one attempt to open and resolve the library.
///
/// A successful attempt replaces the contents of the slot with the new
/// library. A failed attempt leaves the slot as it was and hands the loader's
/// error back unchanged.
pub fn load<L, E>(registry: &mut Registry<L>, attempt: Result<L, E>) -> (outcome: Result<(), E>)
    ensures
        final(registry)@ == slot_after(old(registry)@, attempt),
        outcome == load_outcome(attempt),
        attempt is Err ==> *final(registry) == *old(registry),
{
    match attempt {
        Ok(library) => {
            registry.slot = Some(library);
            Ok(())
        },
        Err(error) => Err(error),
    }
}

/// The loaded library. The caller shows that a load has succeeded.
pub fn lib_unwrap<L>(registry: &Registry<L>) -> (library: &L)
    requires
        registry.loaded(),
    ensures
        *library == registry.library(),
{
    registry.slot.as_ref().unwrap()
}

/// Runs `operation` on the loaded library and returns what it returns. The
/// caller shows that a load has succeeded.
pub fn with_library<L, T, F: FnOnce(&L) -> T>(
    registry: &Registry<L>,
    operation: F,
) -> (result: T)
    requires
        registry.loaded(),
        call_requires(operation, (&registry.library(),)),
    ensures
        call_ensures(operation, (&registry.library(),), result),
{
    operation(lib_unwrap(registry))
}

/// Runs `operation` on the loaded library, or reports that none is loaded. On
/// an empty slot `operation` is not run.
pub fn try_with_library<L, T, F: FnOnce(&L) -> T>(
    registry: &Registry<L>,
    operation: F,
) -> (result: Result<T, NotLoaded>)
    requires
        registry.loaded() ==> call_requires(operation, (&registry.library(),)),
    ensures
        result is Ok <==> registry.loaded(),
        result is Ok ==> call_ensures(operation, (&registry.library(),), result->Ok_0),
{
    if registry.is_loaded() {
        Ok(with_library(registry, operation))
    } else {
        Err(NotLoaded)
    }
}

/// A failed load changes nothing: after any series of attempts that all
/// failed, the slot holds what it held before.
pub proof fn lemma_failed_loads_keep_slot<L, E>(slot: Option<L>, attempts: Seq<Result<L, E>>)
    requires
        forall|i: int| 0 <= i < attempts.len() ==> attempts[i] is Err,
    ensures
        slot_after_all(slot, attempts) == slot,
    decreases attempts.len(),
{
    if attempts.len() > 0 {
        lemma_failed_loads_keep_slot(slot, attempts.drop_last());
    }
}

/// An empty slot is still empty after a series of attempts exactly when none
/// of them succeeded: before the first successful load there is no library to
/// call into.
pub proof fn lemma_empty_until_first_success<L, E>(attempts: Seq<Result<L, E>>)
    ensures
        slot_after_all(None::<L>, attempts) is None <==> forall|i: int|
            0 <= i < attempts.len() ==> attempts[i] is Err,
    decreases attempts.len(),
{
    if attempts.len() > 0 {
        let earlier = attempts.drop_last();
        lemma_empty_until_first_success(earlier);
        if forall|i: int| 0 <= i < attempts.len() ==> attempts[i] is Err {
            assert forall|i: int| 0 <= i < earlier.len() implies earlier[i] is Err by {
                assert(earlier[i] == attempts[i]);
            }
        }
        if slot_after_all(None::<L>, attempts) is None {
            assert(attempts.last() is Err);
            assert forall|i: int| 0 <= i < attempts.len() implies attempts[i] is Err by {
                if i < earlier.len() {
                    assert(earlier[i] == attempts[i]);
                }
            }
        }
    }
}

/// Nothing empties the slot: once it holds a library, it holds one after any
/// further series of attempts, whether they succeed or fail.
pub proof fn lemma_loaded_stays_loaded<L, E>(slot: Option<L>, attempts: Seq<Result<L, E>>)
    requires
        slot is Some,
    ensures
        slot_after_all(slot, attempts) is Some,
    decreases attempts.len(),
{
    if attempts.len() > 0 {
        lemma_loaded_stays_loaded(slot, attempts.drop_last());
    }
}

/// The slot holds the library of the last attempt that succeeded, whole: what
/// came before that attempt, in the slot or in earlier attempts, has no part
/// in it, and the failures after it do not touch it.
pub proof fn lemma_last_success_wins<L, E>(
    slot: Option<L>,
    attempts: Seq<Result<L, E>>,
    last_success: int,
)
    requires
        0 <= last_success < attempts.len(),
        attempts[last_success] is Ok,
        forall|i: int| last_success < i < attempts.len() ==> attempts[i] is Err,
    ensures
        slot_after_all(slot, attempts) == Some(attempts[last_success]->Ok_0),
    decreases attempts.len(),
{
    if last_success < attempts.len() - 1 {
        lemma_last_success_wins(slot, attempts.drop_last(), last_success);
    }
}

/// A second successful load replaces the first: the slot then holds the
/// second library, whatever the first was.
pub proof fn lemma_reload_replaces<L, E>(slot: Option<L>, first: L, second: L)
    ensures
        slot_after(slot_after(slot, Ok::<L, E>(first)), Ok::<L, E>(second)) == Some(second),
{
}

/// A load that fails after one that succeeded leaves the first library in
/// place.
pub proof fn lemma_failed_reload_keeps_library<L, E>(slot: Option<L>, library: L, error: E)
    ensures
        slot_after(slot_after(slot, Ok::<L, E>(library)), Err::<L, E>(error)) == Some(library),
{
}

/// Every read sees the library of the last successful load, whole: a registry
/// that was loaded with `library` and has since met only failed attempts is
/// loaded, and the library that reads of it return is `library`.
pub proof fn lemma_reads_see_loaded_library<L, E>(
    registry: Registry<L>,
    before: Option<L>,
    library: L,
    failures: Seq<Result<L, E>>,
)
    requires
        forall|i: int| 0 <= i < failures.len() ==> failures[i] is Err,
        registry@ == slot_after_all(slot_after(before, Ok::<L, E>(library)), failures),
    ensures
        registry.loaded(),
        registry.library() == library,
{
    lemma_failed_loads_keep_slot(slot_after(before, Ok::<L, E>(library)), failures);
}

} // verus!

use vstd::prelude::*;

use crate::dynload::{Error, Library};

verus! {

/// The process-wide place for the one loaded library.
///
/// Its model is `None` while no load was attempted, `Some(None)` once a load
/// failed and `Some(Some(h))` once the library with handle `h` was loaded.
/// Once settled it never changes: there is no reload. Callers that share a
/// slot between threads serialise `load_step` and `load` under one lock, so
/// that exactly one of them opens the library.
pub struct LibrarySlot {
    cell: Option<Option<Library>>,
}

/// What an accessor of the slot does next.
#[derive(Debug, Clone, Copy, PartialEq, Eq, Structural)]
pub enum LoadStep {
    /// No load was attempted yet: open the library and hand the outcome to `load`.
    Open,
    /// The slot is settled; the flag tells whether a library is held.
    Settled(bool),
}

/// The model of an optional library: its handle.
pub open spec fn handle_of(lib: Option<Library>) -> Option<usize> {
    match lib {
        Some(l) => Some(l@),
        None => None,
    }
}

/// The handle that an attempt to open yields, if it succeeded.
pub open spec fn outcome_of(opened: Result<Library, Error>) -> Option<usize> {
    match opened {
        Ok(l) => Some(l@),
        Err(_) => None,
    }
}

impl View for LibrarySlot {
    type V = Option<Option<usize>>;

    closed spec fn view(&self) -> Option<Option<usize>> {
        match self.cell {
            Some(lib) => Some(handle_of(lib)),
            None => None,
        }
    }
}

/// The step an accessor takes on a slot in state `s`.
pub open spec fn step_of(s: Option<Option<usize>>) -> LoadStep {
    match s {
        None => LoadStep::Open,
        Some(lib) => LoadStep::Settled(lib is Some),
    }
}

/// The state an accessor leaves behind, where opening would yield `outcome`.
pub open spec fn settle(s: Option<Option<usize>>, outcome: Option<usize>) -> Option<Option<usize>> {
    match s {
        None => Some(outcome),
        Some(_) => s,
    }
}

/// What an accessor reports (whether a library is held), where opening would
/// yield `outcome`.
pub open spec fn access_result(s: Option<Option<usize>>, outcome: Option<usize>) -> bool {
    match step_of(s) {
        LoadStep::Open => outcome is Some,
        LoadStep::Settled(held) => held,
    }
}

/// The state after accessors come one after another, the i-th of which would
/// yield `outcomes[i]` if it opened the library.
pub open spec fn after_accesses(s: Option<Option<usize>>, outcomes: Seq<Option<usize>>) -> Option<
    Option<usize>,
>
    decreases outcomes.len(),
{
    if outcomes.len() == 0 {
        s
    } else {
        after_accesses(settle(s, outcomes[0]), outcomes.drop_first())
    }
}

/// How many of those accessors open the library.
pub open spec fn opens_in(s: Option<Option<usize>>, outcomes: Seq<Option<usize>>) -> nat
    decreases outcomes.len(),
{
    if outcomes.len() == 0 {
        0
    } else {
        (if step_of(s) == LoadStep::Open {
            1nat
        } else {
            0nat
        }) + opens_in(settle(s, outcomes[0]), outcomes.drop_first())
    }
}

/// A settled slot stays as it is, whatever accessors come, and none of them
/// opens the library again.
pub proof fn lemma_settled_slot_stays(s: Option<Option<usize>>, outcomes: Seq<Option<usize>>)
    requires
        s is Some,
    ensures
        after_accesses(s, outcomes) == s,
        opens_in(s, outcomes) == 0,
    decreases outcomes.len(),
{
    if outcomes.len() > 0 {
        lemma_settled_slot_stays(s, outcomes.drop_first());
    }
}

/// However many accessors reach an unset slot, exactly one opens the library;
/// from then on the slot holds that one outcome, and every accessor reports it.
pub proof fn lemma_single_open(outcomes: Seq<Option<usize>>)
    requires
        outcomes.len() > 0,
    ensures
        opens_in(None, outcomes) == 1,
        after_accesses(None, outcomes) == Some(outcomes[0]),
        forall|k: int|
            1 <= k <= outcomes.len() ==> #[trigger] after_accesses(None, outcomes.take(k)) == Some(
                outcomes[0],
            ),
        forall|k: int|
            0 <= k < outcomes.len() ==> #[trigger] access_result(
                after_accesses(None, outcomes.take(k)),
                outcomes[k],
            ) == (outcomes[0] is Some),
{
    lemma_settled_slot_stays(Some(outcomes[0]), outcomes.drop_first());
    assert forall|k: int| 1 <= k <= outcomes.len() implies #[trigger] after_accesses(
        None,
        outcomes.take(k),
    ) == Some(outcomes[0]) by {
        let t = outcomes.take(k);
        assert(t[0] == outcomes[0]);
        lemma_settled_slot_stays(Some(outcomes[0]), t.drop_first());
    }
    assert forall|k: int| 0 <= k < outcomes.len() implies #[trigger] access_result(
        after_accesses(None, outcomes.take(k)),
        outcomes[k],
    ) == (outcomes[0] is Some) by {
        if k == 0 {
            assert(outcomes.take(0).len() == 0);
        } else {
            assert(after_accesses(None, outcomes.take(k)) == Some(outcomes[0]));
        }
    }
}

impl LibrarySlot {
    /// A slot on which no load was attempted.
    pub fn new() -> (r: LibrarySlot)
        ensures
            r@ == None::<Option<usize>>,
    {
        LibrarySlot { cell: None }
    }
}

/// Whether the slot holds a loaded library: false before any load and after
/// a failed one, true once a load succeeded, and never false again.
pub fn is_loaded(slot: &LibrarySlot) -> (r: bool)
    ensures
        r == slot@ matches Some(Some(_)),
{
    match &slot.cell {
        Some(Some(_)) => true,
        _ => false,
    }
}

/// What an accessor of the slot does next: open the library, or report
/// the settled outcome.
pub fn load_step(slot: &LibrarySlot) -> (r: LoadStep)
    ensures
        r == step_of(slot@),
{
    match &slot.cell {
        None => LoadStep::Open,
        Some(lib) => LoadStep::Settled(lib.is_some()),
    }
}

/// Settles an unset slot with the outcome of opening the library, and tells
/// whether the slot now holds a library. A settled slot is left as it is and
/// `opened` is not used: callers ask `load_step` first, so that only the one
/// told to open does so.
pub fn load(slot: &mut LibrarySlot, opened: Result<Library, Error>) -> (r: bool)
    ensures
        final(slot)@ == settle(old(slot)@, outcome_of(opened)),
        r == access_result(old(slot)@, outcome_of(opened)),
        r == final(slot)@ matches Some(Some(_)),
{
    match &slot.cell {
        Some(lib) => lib.is_some(),
        None => {
            let r = opened.is_ok();
            slot.cell = Some(opened.ok());
            r
        },
    }
}

/// Runs `callback` on the loaded library; using the slot before a library
/// was loaded is the error `UsedBeforeLoaded`.
pub fn with_lib<T, F: Fn(&Library) -> T>(slot: &LibrarySlot, callback: F) -> (r: Result<T, Error>)
    requires
        forall|lib: &Library| #[trigger] callback.requires((lib,)),
    ensures
        r is Ok <==> slot@ matches Some(Some(_)),
        r matches Err(e) ==> e == Error::UsedBeforeLoaded,
        r matches Ok(v) ==> exists|lib: Library|
            slot@ == Some(Some(lib@)) && #[trigger] callback.ensures((&lib,), v),
{
    match &slot.cell {
        Some(Some(lib)) => {
            let v = callback(lib);
            let r: Result<T, Error> = Ok(v);
            assert(r matches Ok(x) && x == v);
            r
        },
        _ => Err(Error::UsedBeforeLoaded),
    }
}

} // verus!

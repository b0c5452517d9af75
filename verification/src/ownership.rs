//! Single-owner-per-knob enforcement.
//!
//! A knob (a capability id) can be held by at most one owner at once. A second
//! owner is refused, fail-closed, until the first gives its [`OwnershipGuard`]
//! back.
use vstd::hash_map::StringHashMap;
use vstd::multiset::Multiset;
use vstd::prelude::*;

verus! {

/// Returned when a knob is already owned by another owner.
#[derive(Clone, Debug)]
pub struct OwnerConflict {
    /// The contested capability id.
    pub capability_id: String,
    /// The owner that currently holds the knob.
    pub held_by: String,
}

impl OwnerConflict {
    /// The sentence that describes the conflict.
    pub fn message(&self) -> (text: String)
        ensures
            text@ == "capability "@ + self.capability_id@ + " is already owned by "@ + self.held_by@,
    {
        "capability ".to_owned()
            .concat(self.capability_id.as_str())
            .concat(" is already owned by ")
            .concat(self.held_by.as_str())
    }
}

/// Tracks which owner holds each knob and enforces a single owner per knob.
pub struct OwnershipLedger {
    owners: StringHashMap<String>,
}

/// Holds a knob's ownership until it is given back to its ledger; one that is
/// never given back leaves the knob held.
#[derive(Debug)]
#[must_use]
pub struct OwnershipGuard {
    capability_id: String,
}

impl View for OwnershipLedger {
    type V = Map<Seq<char>, Seq<char>>;

    closed spec fn view(&self) -> Map<Seq<char>, Seq<char>> {
        self.owners@.map_values(|owner: String| owner@)
    }
}

impl OwnershipLedger {
    /// Builds an empty ledger.
    pub fn new() -> (ledger: Self)
        ensures
            ledger@ == Map::<Seq<char>, Seq<char>>::empty(),
    {
        let ledger = OwnershipLedger { owners: StringHashMap::new() };
        assert(ledger@ =~= Map::<Seq<char>, Seq<char>>::empty());
        ledger
    }

    /// Acquires exclusive ownership of `capability_id` for `owner`.
    ///
    /// The knob is held until the returned [`OwnershipGuard`] is given back to
    /// [`OwnershipLedger::release`].
    pub fn acquire(&mut self, capability_id: &str, owner: &str) -> (acquired: Result<OwnershipGuard, OwnerConflict>)
        ensures
            if old(self)@.contains_key(capability_id@) {
                &&& final(self)@ == old(self)@
                &&& acquired matches Err(conflict)
                &&& conflict.capability_id@ == capability_id@
                &&& conflict.held_by@ == old(self)@[capability_id@]
            } else {
                &&& final(self)@ == old(self)@.insert(capability_id@, owner@)
                &&& acquired matches Ok(guard)
                &&& guard.knob() == capability_id@
            },
    {
        if let Some(held_by) = self.owners.get(capability_id) {
            return Err(OwnerConflict { capability_id: capability_id.to_owned(), held_by: held_by.clone() });
        }
        self.owners.insert(capability_id.to_owned(), owner.to_owned());
        assert(self@ =~= old(self)@.insert(capability_id@, owner@));
        Ok(OwnershipGuard { capability_id: capability_id.to_owned() })
    }

    /// Returns the current owner of a knob, if any.
    pub fn owner_of(&self, capability_id: &str) -> (owner: Option<String>)
        ensures
            owner is Some <==> self@.contains_key(capability_id@),
            owner matches Some(name) ==> name@ == self@[capability_id@],
    {
        match self.owners.get(capability_id) {
            Some(owner) => Some(owner.clone()),
            None => None,
        }
    }

    /// Gives a knob back, so that another owner may take it.
    pub fn release(&mut self, guard: OwnershipGuard)
        ensures
            final(self)@ == old(self)@.remove(guard.knob()),
    {
        self.owners.remove(guard.capability_id.as_str());
        assert(self@ =~= old(self)@.remove(guard.knob()));
    }
}

impl OwnershipGuard {
    /// The knob that the guard holds.
    pub closed spec fn knob(&self) -> Seq<char> {
        self.capability_id@
    }

    /// Returns the capability id this guard holds.
    pub fn capability_id(&self) -> (id: &str)
        ensures
            id@ == self.knob(),
    {
        self.capability_id.as_str()
    }
}

/// Giving a knob back leaves the ledger as it was before the knob was taken.
pub proof fn releasing_undoes_acquiring(
    ledger: Map<Seq<char>, Seq<char>>,
    knob: Seq<char>,
    owner: Seq<char>,
)
    requires
        !ledger.contains_key(knob),
    ensures
        ledger.insert(knob, owner).remove(knob) == ledger,
{
    assert(ledger.insert(knob, owner).remove(knob) =~= ledger);
}

/// Knobs are held independently: taking or giving back one leaves the owner of
/// every other as it was.
pub proof fn knobs_are_independent(
    ledger: Map<Seq<char>, Seq<char>>,
    knob: Seq<char>,
    owner: Seq<char>,
    other: Seq<char>,
)
    requires
        knob != other,
    ensures
        ledger.insert(knob, owner).contains_key(other) == ledger.contains_key(other),
        ledger.remove(knob).contains_key(other) == ledger.contains_key(other),
        ledger.contains_key(other) ==> ledger.insert(knob, owner)[other] == ledger[other] && ledger.remove(knob)[other]
            == ledger[other],
{
}

/// What can happen to a ledger.
pub enum LedgerEvent {
    /// Somebody asks for a knob.
    Asked {
        /// The knob.
        knob: Seq<char>,
        /// Who asks.
        owner: Seq<char>,
    },
    /// A guard of that knob is given back.
    GivenBack {
        /// The knob.
        knob: Seq<char>,
    },
}

/// A ledger together with the guards that it has handed out and not got back.
#[verifier::ext_equal]
pub struct LedgerState {
    /// Who holds each knob.
    pub held: Map<Seq<char>, Seq<char>>,
    /// The knob of each guard that is out.
    pub guards: Multiset<Seq<char>>,
}

/// Where a history of events takes a ledger that starts empty. A guard is handed
/// out for a knob that is free, and only a guard that is out is given back.
pub open spec fn after(history: Seq<LedgerEvent>) -> LedgerState
    decreases history.len(),
{
    if history.len() == 0 {
        LedgerState { held: Map::empty(), guards: Multiset::empty() }
    } else {
        let before = after(history.drop_last());
        match history.last() {
            LedgerEvent::Asked { knob, owner } => if before.held.contains_key(knob) {
                before
            } else {
                LedgerState { held: before.held.insert(knob, owner), guards: before.guards.insert(knob) }
            },
            LedgerEvent::GivenBack { knob } => if before.guards.count(knob) == 0 {
                before
            } else {
                LedgerState { held: before.held.remove(knob), guards: before.guards.remove(knob) }
            },
        }
    }
}

/// Over any history a knob has one guard out while it is held, and none while it
/// is free.
pub proof fn a_knob_never_has_two_guards(history: Seq<LedgerEvent>, knob: Seq<char>)
    ensures
        after(history).guards.count(knob) == if after(history).held.contains_key(knob) { 1nat } else { 0 },
    decreases history.len(),
{
    broadcast use vstd::multiset::group_multiset_axioms;

    if history.len() > 0 {
        a_knob_never_has_two_guards(history.drop_last(), knob);
        match history.last() {
            LedgerEvent::Asked { knob: asked, .. } => {
                a_knob_never_has_two_guards(history.drop_last(), asked);
            },
            LedgerEvent::GivenBack { knob: given } => {
                a_knob_never_has_two_guards(history.drop_last(), given);
            },
        }
    }
}

} // verus!

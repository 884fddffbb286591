//! A generational slot arena: the verified storage core.
//!
//! Each slot is either vacant, full, or lent out, and carries a stamp that
//! counts the occupancy episodes of that slot. A (slot id, stamp) pair names
//! one occupancy episode; the pair matches the slot again only while that
//! very episode lasts, so a pair taken from a removed occupant can never
//! reach a later occupant of the same slot.

use vstd::prelude::*;

verus! {

/// One storage location: vacant, holding a value, or lent out for the
/// duration of an access session.
pub enum Slot<T> {
    /// No occupant. `stamp` is the stamp of the last occupant, or 0 if the
    /// slot was never occupied.
    Vacant { stamp: u64 },
    /// An occupant is present.
    Full { stamp: u64, value: T },
    /// The occupant's value is temporarily checked out; the slot stays
    /// reserved for it.
    Lent { stamp: u64 },
}

impl<T> Slot<T> {
    /// The stamp of the slot's current (or, when vacant, most recent) episode.
    pub open spec fn stamp(self) -> u64 {
        match self {
            Slot::Vacant { stamp } => stamp,
            Slot::Full { stamp, .. } => stamp,
            Slot::Lent { stamp } => stamp,
        }
    }

    /// The stored value; meaningful only for a full slot.
    pub open spec fn value(self) -> T {
        match self {
            Slot::Full { value, .. } => value,
            _ => vstd::pervasive::arbitrary(),
        }
    }

    /// A vacant slot can be re-occupied as long as its stamp can still grow.
    pub open spec fn reusable(self) -> bool {
        self is Vacant && self.stamp() < u64::MAX
    }
}

/// The episode (id, stamp) currently holds a value in `s`.
pub open spec fn live_at<T>(s: Seq<Slot<T>>, id: int, stamp: u64) -> bool {
    0 <= id < s.len() && s[id] is Full && s[id].stamp() == stamp
}

/// The episode (id, stamp) is lent out in `s`.
pub open spec fn lent_at<T>(s: Seq<Slot<T>>, id: int, stamp: u64) -> bool {
    0 <= id < s.len() && s[id] is Lent && s[id].stamp() == stamp
}

/// The value held at slot `id`.
pub open spec fn value_at<T>(s: Seq<Slot<T>>, id: int) -> T {
    s[id].value()
}

/// The episode (id, stamp) is over: the slot has moved past it, either to a
/// later episode (greater stamp) or back to vacancy after its removal. A
/// lent-out episode is not dead — restoring its value resumes it — but a
/// removed one is, and every arena operation preserves deadness, so a dead
/// episode stays dead.
pub open spec fn dead_at<T>(s: Seq<Slot<T>>, id: int, stamp: u64) -> bool {
    0 <= id < s.len() && (s[id].stamp() > stamp || (s[id].stamp() == stamp && s[id] is Vacant))
}

/// Exactly what `Arena::insert` does to the slot sequence `s`: the new value
/// lands in the first reusable slot, with the slot's stamp advanced by one,
/// or in a fresh slot at the end with stamp 0 when no slot is reusable.
pub open spec fn insert_post<T>(s: Seq<Slot<T>>, value: T, s2: Seq<Slot<T>>, id: int, stamp: u64) -> bool {
    &&& 0 <= id < s2.len()
    &&& if id < s.len() {
            &&& s[id].reusable()
            &&& forall|j: int| 0 <= j < id ==> !(#[trigger] s[j]).reusable()
            &&& stamp == s[id].stamp() + 1
            &&& s2 == s.update(id, Slot::Full { stamp, value })
        } else {
            &&& id == s.len()
            &&& forall|j: int| 0 <= j < s.len() ==> !(#[trigger] s[j]).reusable()
            &&& stamp == 0
            &&& s2 == s.push(Slot::Full { stamp, value })
        }
}

/// The owning container of slots.
pub struct Arena<T> {
    slots: Vec<Slot<T>>,
}

impl<T> View for Arena<T> {
    type V = Seq<Slot<T>>;

    closed spec fn view(&self) -> Seq<Slot<T>> {
        self.slots@
    }
}

impl<T> Arena<T> {
    /// A new arena with no slots.
    pub fn new() -> (a: Arena<T>)
        ensures
            a@.len() == 0,
    {
        Arena { slots: Vec::new() }
    }

    /// How many slots exist (vacant ones included; slots are recycled, never
    /// deallocated).
    pub fn slot_count(&self) -> (n: usize)
        ensures
            n == self@.len(),
    {
        self.slots.len()
    }

    /// Whether the episode (id, stamp) currently holds a value.
    pub fn is_live(&self, id: usize, stamp: u64) -> (b: bool)
        ensures
            b == live_at(self@, id as int, stamp),
    {
        if id < self.slots.len() {
            match &self.slots[id] {
                Slot::Full { stamp: s, .. } => *s == stamp,
                _ => false,
            }
        } else {
            false
        }
    }

    /// Whether the episode (id, stamp) is lent out.
    pub fn is_lent(&self, id: usize, stamp: u64) -> (b: bool)
        ensures
            b == lent_at(self@, id as int, stamp),
    {
        if id < self.slots.len() {
            match &self.slots[id] {
                Slot::Lent { stamp: s } => *s == stamp,
                _ => false,
            }
        } else {
            false
        }
    }

    /// Store `value` in the first reusable slot, or in a fresh slot at the
    /// end, and return the slot id together with the new episode's stamp.
    pub fn insert(&mut self, value: T) -> (r: (usize, u64))
        ensures
            insert_post(old(self)@, value, final(self)@, r.0 as int, r.1),
    {
        let n = self.slots.len();
        let mut i: usize = 0;
        while i < n
            invariant
                n == self@.len(),
                i <= n,
                self@ == old(self)@,
                forall|j: int| 0 <= j < i ==> !(#[trigger] self@[j]).reusable(),
            decreases n - i,
        {
            let reuse_stamp: Option<u64> = match &self.slots[i] {
                Slot::Vacant { stamp } => {
                    if *stamp < u64::MAX {
                        Some(*stamp)
                    } else {
                        None
                    }
                },
                _ => None,
            };
            if let Some(st) = reuse_stamp {
                let slot_ref = &mut self.slots[i];
                *slot_ref = Slot::Full { stamp: st + 1, value };
                return (i, st + 1);
            }
            i = i + 1;
        }
        self.slots.push(Slot::Full { stamp: 0, value });
        (n, 0)
    }

    /// Read the value of the live episode (id, stamp).
    pub fn get(&self, id: usize, stamp: u64) -> (r: &T)
        requires
            live_at(self@, id as int, stamp),
        ensures
            *r == value_at(self@, id as int),
    {
        match &self.slots[id] {
            Slot::Full { value, .. } => value,
            _ => vstd::pervasive::unreached(),
        }
    }

    /// Mutably borrow the value of the live episode (id, stamp). The slot
    /// keeps its stamp; only its value follows the returned reference.
    pub fn get_mut(&mut self, id: usize, stamp: u64) -> (r: &mut T)
        requires
            live_at(old(self)@, id as int, stamp),
        ensures
            *r == value_at(old(self)@, id as int),
            final(self)@ == old(self)@.update(id as int, Slot::Full { stamp, value: *final(r) }),
    {
        match &mut self.slots[id] {
            Slot::Full { value, .. } => value,
            _ => vstd::pervasive::unreached(),
        }
    }

    /// End the live episode (id, stamp) and hand its value back. The slot
    /// becomes vacant but keeps the stamp, so the episode can never match
    /// the slot again.
    pub fn remove(&mut self, id: usize, stamp: u64) -> (r: T)
        requires
            live_at(old(self)@, id as int, stamp),
        ensures
            r == value_at(old(self)@, id as int),
            final(self)@ == old(self)@.update(id as int, Slot::Vacant { stamp }),
    {
        let mut taken = Slot::Vacant { stamp };
        core::mem::swap(&mut taken, &mut self.slots[id]);
        match taken {
            Slot::Full { value, .. } => value,
            _ => vstd::pervasive::unreached(),
        }
    }

    /// Check the value of the live episode (id, stamp) out of its slot,
    /// leaving the slot reserved (lent) so that no insertion can claim it
    /// before `restore` puts a value back.
    pub fn lend(&mut self, id: usize, stamp: u64) -> (r: T)
        requires
            live_at(old(self)@, id as int, stamp),
        ensures
            r == value_at(old(self)@, id as int),
            final(self)@ == old(self)@.update(id as int, Slot::Lent { stamp }),
    {
        let mut taken = Slot::Lent { stamp };
        core::mem::swap(&mut taken, &mut self.slots[id]);
        match taken {
            Slot::Full { value, .. } => value,
            _ => vstd::pervasive::unreached(),
        }
    }

    /// Put a value back into the lent slot (id, stamp), resuming the same
    /// episode.
    pub fn restore(&mut self, id: usize, stamp: u64, value: T)
        requires
            lent_at(old(self)@, id as int, stamp),
        ensures
            final(self)@ == old(self)@.update(id as int, Slot::Full { stamp, value }),
    {
        let slot_ref = &mut self.slots[id];
        *slot_ref = Slot::Full { stamp, value };
    }
}

/// A value just inserted is fetched back unchanged: after an insertion the
/// returned episode is live and the slot holds exactly the inserted value,
/// which is what `get` then returns.
pub proof fn lemma_insert_round_trip<T>(s: Seq<Slot<T>>, value: T, s2: Seq<Slot<T>>, id: int, stamp: u64)
    requires
        insert_post(s, value, s2, id, stamp),
    ensures
        live_at(s2, id, stamp),
        value_at(s2, id) == value,
{
}

/// A value written over a live episode is fetched back unchanged: writing
/// `value` at (id, stamp), as `get_mut` describes it, leaves the episode
/// live and holding `value`.
pub proof fn lemma_write_round_trip<T>(s: Seq<Slot<T>>, value: T, id: int, stamp: u64)
    requires
        live_at(s, id, stamp),
    ensures
        live_at(s.update(id, Slot::Full { stamp, value }), id, stamp),
        value_at(s.update(id, Slot::Full { stamp, value }), id) == value,
{
}

/// Removal ends an episode for good on the spot: right after `remove`, the
/// removed (id, stamp) pair — carried by every clone of the token that
/// named it — is dead.
pub proof fn lemma_remove_kills<T>(s: Seq<Slot<T>>, id: int, stamp: u64)
    requires
        live_at(s, id, stamp),
    ensures
        dead_at(s.update(id, Slot::Vacant { stamp }), id, stamp),
        !live_at(s.update(id, Slot::Vacant { stamp }), id, stamp),
{
}

/// A dead episode is not a live one.
pub proof fn lemma_dead_not_live<T>(s: Seq<Slot<T>>, id: int, stamp: u64)
    requires
        dead_at(s, id, stamp),
    ensures
        !live_at(s, id, stamp),
{
}

/// Insertion keeps every dead episode dead: even when the insertion reuses
/// the very slot of a dead episode, the slot's stamp moves strictly past it,
/// so the stale pair still matches nothing.
pub proof fn lemma_insert_keeps_dead<T>(s: Seq<Slot<T>>, value: T, s2: Seq<Slot<T>>, nid: int, nstamp: u64, id: int, stamp: u64)
    requires
        insert_post(s, value, s2, nid, nstamp),
        dead_at(s, id, stamp),
    ensures
        dead_at(s2, id, stamp),
{
}

/// Removal keeps every dead episode dead.
pub proof fn lemma_remove_keeps_dead<T>(s: Seq<Slot<T>>, rid: int, rstamp: u64, id: int, stamp: u64)
    requires
        live_at(s, rid, rstamp),
        dead_at(s, id, stamp),
    ensures
        dead_at(s.update(rid, Slot::Vacant { stamp: rstamp }), id, stamp),
{
}

/// Writing over a live episode keeps every dead episode dead.
pub proof fn lemma_write_keeps_dead<T>(s: Seq<Slot<T>>, value: T, wid: int, wstamp: u64, id: int, stamp: u64)
    requires
        live_at(s, wid, wstamp),
        dead_at(s, id, stamp),
    ensures
        dead_at(s.update(wid, Slot::Full { stamp: wstamp, value }), id, stamp),
{
}

/// Lending a live episode's value out keeps every dead episode dead.
pub proof fn lemma_lend_keeps_dead<T>(s: Seq<Slot<T>>, lid: int, lstamp: u64, id: int, stamp: u64)
    requires
        live_at(s, lid, lstamp),
        dead_at(s, id, stamp),
    ensures
        dead_at(s.update(lid, Slot::Lent { stamp: lstamp }), id, stamp),
{
}

/// Restoring a lent value keeps every dead episode dead.
pub proof fn lemma_restore_keeps_dead<T>(s: Seq<Slot<T>>, value: T, lid: int, lstamp: u64, id: int, stamp: u64)
    requires
        lent_at(s, lid, lstamp),
        dead_at(s, id, stamp),
    ensures
        dead_at(s.update(lid, Slot::Full { stamp: lstamp, value }), id, stamp),
{
}

/// When some slot is still reusable, insertion recycles one instead of
/// growing the arena: the slot count does not change.
pub proof fn lemma_insert_reuses_slot<T>(s: Seq<Slot<T>>, value: T, s2: Seq<Slot<T>>, id: int, stamp: u64)
    requires
        insert_post(s, value, s2, id, stamp),
        exists|i: int| 0 <= i < s.len() && (#[trigger] s[i]).reusable(),
    ensures
        s2.len() == s.len(),
{
    if id == s.len() {
        let i = choose|i: int| 0 <= i < s.len() && (#[trigger] s[i]).reusable();
        assert(!s[i].reusable());
    }
}

/// No two simultaneously live episodes share a slot id: a slot id matches at
/// most one stamp at a time, so each occupied slot answers to exactly one
/// token family (one original token and its clones).
pub proof fn lemma_one_family_per_slot<T>(s: Seq<Slot<T>>, id: int, stamp1: u64, stamp2: u64)
    requires
        live_at(s, id, stamp1),
        live_at(s, id, stamp2),
    ensures
        stamp1 == stamp2,
{
}

/// A freshly inserted episode is distinct from every episode that was
/// already dead: slot reuse never revives a removed token.
pub proof fn lemma_fresh_episode_not_dead<T>(s: Seq<Slot<T>>, value: T, s2: Seq<Slot<T>>, nid: int, nstamp: u64, id: int, stamp: u64)
    requires
        insert_post(s, value, s2, nid, nstamp),
        dead_at(s, id, stamp),
    ensures
        !(nid == id && nstamp == stamp),
{
}

} // verus!

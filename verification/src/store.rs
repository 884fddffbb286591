//! The heterogeneous store and its tokens.
//!
//! A [`Store`] owns a generational slot arena of type-erased values. Each
//! insertion mints a [`Token`] carrying the slot id and the episode stamp;
//! a token (and every clone of it) names its value exactly while that
//! episode lasts. The slot bookkeeping — which slot an operation touches,
//! when a token is live, that removal kills every clone for good, and that
//! slot reuse never honours a stale token — is verified against the arena
//! contracts; what the values themselves are is tracked one level down, in
//! [`crate::arena`], because the erasure boundary hides their contents from
//! specifications here.

use vstd::prelude::*;

use core::marker::PhantomData;

use crate::arena::Arena;
use crate::arena::Slot;
use crate::arena::dead_at;
use crate::arena::insert_post;
use crate::arena::lent_at;
use crate::arena::live_at;
use crate::arena::value_at;
use crate::erased;
use crate::erased::ErasedValue;

verus! {

/// A cloneable, typed capability naming one value in a [`Store`].
///
/// A token carries no data of its own: just the slot id, the stamp of the
/// occupancy episode that minted it, and the type of the value it names.
/// Clones observe the same episode, so removing the value through any clone
/// invalidates all of them at once.
pub struct Token<V> {
    id: usize,
    stamp: u64,
    _type: PhantomData<V>,
}

impl<V> Token<V> {
    /// The slot this token names.
    pub closed spec fn slot_id(&self) -> int {
        self.id as int
    }

    /// The occupancy episode this token was minted for.
    pub closed spec fn slot_stamp(&self) -> u64 {
        self.stamp
    }

    /// The slot id, for the store's own bookkeeping.
    pub(crate) fn id_value(&self) -> (i: usize)
        ensures
            i as int == self.slot_id(),
    {
        self.id
    }

    /// The episode stamp, for the store's own bookkeeping.
    pub(crate) fn stamp_value(&self) -> (s: u64)
        ensures
            s == self.slot_stamp(),
    {
        self.stamp
    }
}

impl<V> Clone for Token<V> {
    /// Cloning duplicates the naming data only; no new episode is created,
    /// and the clone is live exactly when the original is.
    fn clone(&self) -> (r: Token<V>)
        ensures
            r.slot_id() == self.slot_id(),
            r.slot_stamp() == self.slot_stamp(),
    {
        Token { id: self.id, stamp: self.stamp, _type: PhantomData }
    }
}

/// The owning container: a slot arena of type-erased values.
pub struct Store {
    arena: Arena<ErasedValue>,
}

impl Store {
    /// The slot sequence, the store's abstract state.
    pub closed spec fn slots(&self) -> Seq<Slot<ErasedValue>> {
        self.arena@
    }

    /// A token is live while the episode that minted it still occupies its
    /// slot: then and only then may the token read, write or remove the
    /// value. Removal ends the episode, for the token and all its clones.
    pub open spec fn token_live<V>(&self, token: &Token<V>) -> bool {
        live_at(self.slots(), token.slot_id(), token.slot_stamp())
    }

    /// A new store with no slots.
    pub fn new() -> (s: Store)
        ensures
            s.slots().len() == 0,
    {
        Store { arena: Arena::new() }
    }

    /// How many slots the store has grown so far. Empty slots are recycled,
    /// never deallocated, so this only grows, and only when an insertion
    /// finds no slot to reuse.
    pub fn slot_count(&self) -> (n: usize)
        ensures
            n == self.slots().len(),
    {
        self.arena.slot_count()
    }

    /// Insert a new value, minting a live token for it. The value lands in
    /// the first reusable slot — under a stamp no earlier token of that slot
    /// ever carried — or in a fresh slot at the end.
    pub fn insert<V: 'static>(&mut self, value: V) -> (t: Token<V>)
        ensures
            exists|e: ErasedValue|
                insert_post(old(self).slots(), e, final(self).slots(), t.slot_id(), t.slot_stamp()),
            final(self).token_live(&t),
    {
        let e = erased::erase(value);
        let ghost erased_value = e;
        let (id, stamp) = self.arena.insert(e);
        let t = Token { id, stamp, _type: PhantomData };
        proof {
            assert(insert_post(old(self).slots(), erased_value, self.slots(), t.slot_id(), t.slot_stamp()));
            assert(exists|e: ErasedValue|
                insert_post(old(self).slots(), e, self.slots(), t.slot_id(), t.slot_stamp()));
        }
        t
    }

    /// Read the value a live token names. The reference points at the value
    /// stored by the token's episode; that it is returned unchanged is
    /// verified at the arena layer ([`crate::arena::lemma_insert_round_trip`])
    /// and carried across the erasure boundary by [`crate::erased`].
    pub fn get<V: 'static>(&self, token: &Token<V>) -> &V
        requires
            self.token_live(token),
    {
        if !self.arena.is_live(token.id, token.stamp) {
            return vstd::pervasive::unreached();
        }
        let e = self.arena.get(token.id, token.stamp);
        erased::erased_ref::<V>(e)
    }

    /// Mutably borrow the value a live token names. Only that slot's value
    /// changes; the slot keeps its stamp, so the token and its clones stay
    /// live, and every other slot is untouched.
    pub fn get_mut<V: 'static>(&mut self, token: &Token<V>) -> (r: &mut V)
        requires
            old(self).token_live(token),
        ensures
            exists|e: ErasedValue|
                final(self).slots() == old(self).slots().update(
                    token.slot_id(),
                    Slot::Full { stamp: token.slot_stamp(), value: e },
                ),
            final(self).token_live(token),
    {
        if !self.arena.is_live(token.id, token.stamp) {
            return vstd::pervasive::unreached();
        }
        let e = self.arena.get_mut(token.id, token.stamp);
        erased::erased_mut::<V>(e)
    }

    /// Remove the value a live token names and hand it back. The slot
    /// becomes vacant — free for reuse under a later stamp — and the
    /// token's episode is dead: every clone of the token is invalid from
    /// here on, whatever is done to the store afterwards
    /// (see the `keeps_dead` lemmas of [`crate::arena`]).
    pub fn remove<V: 'static>(&mut self, token: Token<V>) -> (r: V)
        requires
            old(self).token_live(&token),
        ensures
            final(self).slots() == old(self).slots().update(
                token.slot_id(),
                Slot::Vacant { stamp: token.slot_stamp() },
            ),
            dead_at(final(self).slots(), token.slot_id(), token.slot_stamp()),
    {
        if !self.arena.is_live(token.id, token.stamp) {
            return vstd::pervasive::unreached();
        }
        let e = self.arena.remove(token.id, token.stamp);
        erased::erased_take::<V>(e)
    }

    /// Whether a token is live, for the session machinery's runtime checks.
    pub(crate) fn live_check<V>(&self, token: &Token<V>) -> (b: bool)
        ensures
            b == self.token_live(token),
    {
        self.arena.is_live(token.id, token.stamp)
    }

    /// Whether the episode (id, stamp) is lent out.
    pub(crate) fn lent_check(&self, id: usize, stamp: u64) -> (b: bool)
        ensures
            b == lent_at(self.slots(), id as int, stamp),
    {
        self.arena.is_lent(id, stamp)
    }

    /// Check the erased value of the live episode (id, stamp) out of its
    /// slot, leaving the slot reserved.
    pub(crate) fn lend_slot(&mut self, id: usize, stamp: u64) -> (e: ErasedValue)
        requires
            live_at(old(self).slots(), id as int, stamp),
        ensures
            e == value_at(old(self).slots(), id as int),
            final(self).slots() == old(self).slots().update(id as int, Slot::Lent { stamp }),
    {
        self.arena.lend(id, stamp)
    }

    /// Put an erased value back into the lent slot (id, stamp).
    pub(crate) fn restore_slot(&mut self, id: usize, stamp: u64, e: ErasedValue)
        requires
            lent_at(old(self).slots(), id as int, stamp),
        ensures
            final(self).slots() == old(self).slots().update(id as int, Slot::Full { stamp, value: e }),
    {
        self.arena.restore(id, stamp, e)
    }

    /// Move the store out of `self`, leaving an empty store behind.
    pub(crate) fn take(&mut self) -> (s: Store)
        ensures
            s.slots() == old(self).slots(),
            final(self).slots().len() == 0,
    {
        let mut taken = Store { arena: Arena::new() };
        core::mem::swap(&mut taken, self);
        taken
    }
}

/// Removal invalidates the whole token family at once: a clone carries the
/// same slot id and episode stamp as the token the value was removed
/// through, so the moment `remove` returns, the clone is dead — and the
/// `keeps_dead` lemmas of [`crate::arena`] show that every further store
/// operation keeps it dead, slot reuse included.
pub proof fn lemma_remove_invalidates_clones<V>(before: Store, after: Store, removed: &Token<V>, clone: &Token<V>)
    requires
        before.token_live(removed),
        after.slots() == before.slots().update(
            removed.slot_id(),
            Slot::Vacant { stamp: removed.slot_stamp() },
        ),
        clone.slot_id() == removed.slot_id(),
        clone.slot_stamp() == removed.slot_stamp(),
    ensures
        !after.token_live(clone),
        dead_at(after.slots(), clone.slot_id(), clone.slot_stamp()),
{
}

/// Each occupied slot answers to exactly one live token family: two
/// simultaneously live tokens naming the same slot — whatever their types —
/// were minted by the same occupancy episode.
pub proof fn lemma_one_live_family_per_slot<V, W>(s: Store, a: &Token<V>, b: &Token<W>)
    requires
        s.token_live(a),
        s.token_live(b),
        a.slot_id() == b.slot_id(),
    ensures
        a.slot_stamp() == b.slot_stamp(),
{
}

} // verus!

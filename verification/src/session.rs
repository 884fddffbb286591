//! Access sessions over a store.
//!
//! A [`StoreProxy`] couples a store with the set of slot ids checked out by
//! the enclosing, still-active access sessions. Every operation on a proxy
//! refuses a token whose slot id is checked out somewhere in the chain:
//! that is the dynamic discipline that keeps the one exclusive value
//! reference a session hands out from being reached again — read, written,
//! or removed — anywhere inside that session.

use vstd::prelude::*;

use crate::arena::Slot;
use crate::arena::dead_at;
use crate::arena::insert_post;
use crate::arena::lent_at;
use crate::arena::live_at;
use crate::erased::ErasedValue;
use crate::store::Store;
use crate::store::Token;

verus! {

/// An access session: a store together with the slot ids checked out by the
/// active session chain.
pub struct StoreProxy {
    store: Store,
    borrowed: Vec<usize>,
}

/// Whether `ids` mentions the slot id `id`.
pub open spec fn mentions(ids: Seq<usize>, id: int) -> bool {
    exists|k: int| 0 <= k < ids.len() && (#[trigger] ids[k]) as int == id
}

/// The session state a `with_value` callback starts from, relative to the
/// proxy `outer` the session was opened on and the scoped slot (id, stamp):
/// the scoped slot is lent out — its value travels separately, as the
/// callback's second argument — and the slot id joins the checked-out ids.
pub open spec fn session_entry_of(inner: StoreProxy, outer: StoreProxy, id: int, stamp: u64) -> bool {
    &&& inner.slots() == outer.slots().update(id, Slot::Lent::<ErasedValue> { stamp })
    &&& inner.borrowed_ids() == outer.borrowed_ids().push(id as usize)
}

/// As [`session_entry_of`], for a session opened directly on a store: the
/// chain starts out empty, so the scoped slot is the only checked-out id.
pub open spec fn root_session_entry_of(inner: StoreProxy, s: Store, id: int, stamp: u64) -> bool {
    &&& inner.slots() == s.slots().update(id, Slot::Lent::<ErasedValue> { stamp })
    &&& inner.borrowed_ids() == Seq::<usize>::empty().push(id as usize)
}

/// How the slots look once `with_value` has returned, given the state
/// `after` its callback left behind: in the ordinary course the scoped slot
/// is still lent — the callback cannot touch it — and the (possibly
/// mutated) value moves back in, resuming the episode; a callback that
/// replaced the proxy wholesale has abandoned the session, and the store is
/// then taken exactly as the callback left it, the checked-out value being
/// dropped rather than forced into a slot some other value owns.
pub open spec fn session_exit_of(after: StoreProxy, slots: Seq<Slot<ErasedValue>>, id: int, stamp: u64) -> bool {
    if lent_at(after.slots(), id, stamp) {
        exists|e: ErasedValue| slots == after.slots().update(id, Slot::Full { stamp, value: e })
    } else {
        slots == after.slots()
    }
}

impl StoreProxy {
    /// The underlying store's slot sequence.
    pub closed spec fn slots(&self) -> Seq<Slot<ErasedValue>> {
        self.store.slots()
    }

    /// The slot ids checked out by the active session chain.
    pub closed spec fn borrowed_ids(&self) -> Seq<usize> {
        self.borrowed@
    }

    /// A slot id that is checked out may not be touched through this proxy.
    pub open spec fn checked_out(&self, id: int) -> bool {
        mentions(self.borrowed_ids(), id)
    }

    /// As for a store: the token's episode still occupies its slot.
    pub open spec fn token_live<V>(&self, token: &Token<V>) -> bool {
        live_at(self.slots(), token.slot_id(), token.slot_stamp())
    }

    /// Whether the chain has checked out the slot `id`.
    fn is_checked_out(&self, id: usize) -> (b: bool)
        ensures
            b == self.checked_out(id as int),
    {
        let n = self.borrowed.len();
        let mut i: usize = 0;
        while i < n
            invariant
                n == self.borrowed_ids().len(),
                i <= n,
                forall|k: int| 0 <= k < i ==> (#[trigger] self.borrowed_ids()[k]) != id,
            decreases n - i,
        {
            if self.borrowed[i] == id {
                return true;
            }
            i = i + 1;
        }
        false
    }

    /// Give the store back, ending the session chain.
    pub fn into_store(self) -> (s: Store)
        ensures
            s.slots() == self.slots(),
    {
        self.store
    }

    /// Insert a new value through the session; like [`Store::insert`].
    /// Insertion touches no checked-out slot: a checked-out slot is lent,
    /// not vacant, so it is never reused while its session runs.
    pub fn insert<V: 'static>(&mut self, value: V) -> (t: Token<V>)
        ensures
            exists|e: ErasedValue|
                insert_post(old(self).slots(), e, final(self).slots(), t.slot_id(), t.slot_stamp()),
            final(self).token_live(&t),
            final(self).borrowed_ids() == old(self).borrowed_ids(),
    {
        let t = self.store.insert(value);
        proof {
            let w = choose|e: ErasedValue|
                insert_post(old(self).store.slots(), e, self.store.slots(), t.slot_id(), t.slot_stamp());
            assert(insert_post(old(self).slots(), w, self.slots(), t.slot_id(), t.slot_stamp()));
        }
        t
    }

    /// Read the value a live token names, unless its slot is checked out
    /// somewhere in the active session chain.
    pub fn get<'a, V: 'static>(&'a self, token: &Token<V>) -> &'a V
        requires
            self.token_live(token),
            !self.checked_out(token.slot_id()),
    {
        if self.is_checked_out(token.id_value()) {
            return vstd::pervasive::unreached();
        }
        self.store.get(token)
    }

    /// Mutably borrow the value a live token names, unless its slot is
    /// checked out somewhere in the active session chain; like
    /// [`Store::get_mut`].
    pub fn get_mut<'a, V: 'static>(&'a mut self, token: &Token<V>) -> (r: &'a mut V)
        requires
            old(self).token_live(token),
            !old(self).checked_out(token.slot_id()),
        ensures
            exists|e: ErasedValue|
                final(self).slots() == old(self).slots().update(
                    token.slot_id(),
                    Slot::Full { stamp: token.slot_stamp(), value: e },
                ),
            final(self).token_live(token),
            final(self).borrowed_ids() == old(self).borrowed_ids(),
    {
        if self.is_checked_out(token.id_value()) {
            return vstd::pervasive::unreached();
        }
        self.store.get_mut(token)
    }

    /// Remove the value a live token names, unless its slot is checked out
    /// somewhere in the active session chain; like [`Store::remove`].
    pub fn remove<V: 'static>(&mut self, token: Token<V>) -> (r: V)
        requires
            old(self).token_live(&token),
            !old(self).checked_out(token.slot_id()),
        ensures
            final(self).slots() == old(self).slots().update(
                token.slot_id(),
                Slot::Vacant { stamp: token.slot_stamp() },
            ),
            dead_at(final(self).slots(), token.slot_id(), token.slot_stamp()),
            final(self).borrowed_ids() == old(self).borrowed_ids(),
    {
        if self.is_checked_out(token.id_value()) {
            return vstd::pervasive::unreached();
        }
        self.store.remove(token)
    }

    /// Run `f` with an exclusive reference to the value a live token names,
    /// and with this session extended by that token's slot: inside `f`, the
    /// slot is checked out, so reaching the same value again through the
    /// proxy — by get, get_mut, remove, or a nested session on a clone of
    /// the token — is refused, while every other slot stays reachable,
    /// nested sessions included. When `f` returns, its value moves back
    /// into the slot, the episode resumes, and the checked-out set returns
    /// to what it was.
    pub fn with_value<V: 'static, T, F: FnOnce(&mut StoreProxy, &mut V) -> T>(
        &mut self,
        token: &Token<V>,
        f: F,
    ) -> (r: T)
        requires
            old(self).token_live(token),
            !old(self).checked_out(token.slot_id()),
            forall|p: &mut StoreProxy, v: &mut V|
                session_entry_of(*p, *old(self), token.slot_id(), token.slot_stamp())
                    ==> #[trigger] call_requires(f, (p, v)),
        ensures
            final(self).borrowed_ids() == old(self).borrowed_ids(),
            exists|p: &mut StoreProxy, v: &mut V|
                {
                    &&& session_entry_of(*p, *old(self), token.slot_id(), token.slot_stamp())
                    &&& #[trigger] call_ensures(f, (p, v), r)
                    &&& session_exit_of(*final(p), final(self).slots(), token.slot_id(), token.slot_stamp())
                },
    {
        if !self.store.live_check(token) {
            return vstd::pervasive::unreached();
        }
        if self.is_checked_out(token.id_value()) {
            return vstd::pervasive::unreached();
        }
        let id = token.id_value();
        let stamp = token.stamp_value();
        let e = self.store.lend_slot(id, stamp);
        let mut value: V = crate::erased::erased_take(e);
        let saved = clone_ids(&self.borrowed);
        self.borrowed.push(id);
        let inner: &mut StoreProxy = &mut *self;
        let value_ref: &mut V = &mut value;
        let r = f(inner, value_ref);
        self.borrowed = saved;
        if self.store.lent_check(id, stamp) {
            let e2 = crate::erased::erase(value);
            self.store.restore_slot(id, stamp, e2);
        }
        r
    }
}

/// A session's own slot is untouchable inside it: the proxy a `with_value`
/// callback receives has the scoped slot checked out — and its episode lent
/// out rather than live — so the preconditions of `get`, `get_mut`,
/// `remove` and `with_value` are violated for the scoped token and for
/// every clone of it (clones carry the same slot id and stamp), however
/// deeply sessions nest below: nested entries only push further ids.
pub proof fn lemma_session_excludes_scoped_slot(inner: StoreProxy, outer: StoreProxy, id: int, stamp: u64)
    requires
        session_entry_of(inner, outer, id, stamp),
        0 <= id < outer.slots().len(),
        id <= usize::MAX,
    ensures
        inner.checked_out(id),
        !live_at(inner.slots(), id, stamp),
{
    let ids = inner.borrowed_ids();
    assert(ids[ids.len() - 1] as int == id);
}

/// As [`lemma_session_excludes_scoped_slot`], for a session opened directly
/// on a store.
pub proof fn lemma_root_session_excludes_scoped_slot(inner: StoreProxy, s: Store, id: int, stamp: u64)
    requires
        root_session_entry_of(inner, s, id, stamp),
        0 <= id < s.slots().len(),
        id <= usize::MAX,
    ensures
        inner.checked_out(id),
        !live_at(inner.slots(), id, stamp),
{
    let ids = inner.borrowed_ids();
    assert(ids[ids.len() - 1] as int == id);
}

/// A copy of the checked-out id list.
fn clone_ids(v: &Vec<usize>) -> (r: Vec<usize>)
    ensures
        r@ == v@,
{
    let n = v.len();
    let mut r: Vec<usize> = Vec::new();
    let mut i: usize = 0;
    while i < n
        invariant
            n == v@.len(),
            i <= n,
            r@ == v@.subrange(0, i as int),
        decreases n - i,
    {
        r.push(v[i]);
        i = i + 1;
    }
    proof {
        assert(r@ == v@.subrange(0, n as int));
        assert(v@.subrange(0, n as int) == v@);
    }
    r
}

impl Store {
    /// Open a root access session over this store, with nothing checked
    /// out. The session owns the store; [`StoreProxy::into_store`] gives it
    /// back.
    pub fn as_proxy(self) -> (p: StoreProxy)
        ensures
            p.slots() == self.slots(),
            p.borrowed_ids() == Seq::<usize>::empty(),
    {
        StoreProxy { store: self, borrowed: Vec::new() }
    }

    /// Open a session scoped to a live token and run `f` in it: `f` gets an
    /// exclusive reference to the token's value and a session over the rest
    /// of the store, in which that one slot is checked out and everything
    /// else — including nested sessions on other tokens — is available.
    /// Equivalent to opening a root session by hand and calling
    /// [`StoreProxy::with_value`] on it.
    pub fn with_value<V: 'static, T, F: FnOnce(&mut StoreProxy, &mut V) -> T>(
        &mut self,
        token: &Token<V>,
        f: F,
    ) -> (r: T)
        requires
            old(self).token_live(token),
            forall|p: &mut StoreProxy, v: &mut V|
                root_session_entry_of(*p, *old(self), token.slot_id(), token.slot_stamp())
                    ==> #[trigger] call_requires(f, (p, v)),
        ensures
            exists|p: &mut StoreProxy, v: &mut V|
                {
                    &&& root_session_entry_of(*p, *old(self), token.slot_id(), token.slot_stamp())
                    &&& #[trigger] call_ensures(f, (p, v), r)
                    &&& session_exit_of(*final(p), final(self).slots(), token.slot_id(), token.slot_stamp())
                },
    {
        let taken = self.take();
        let mut proxy = taken.as_proxy();
        let r = proxy.with_value(token, f);
        let back = proxy.into_store();
        *self = back;
        r
    }
}

} // verus!

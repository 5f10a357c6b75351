//! The registry of sessions and the live transports bound to them.
//!
//! The registry owns each session's transport. A transport is lent out for one
//! command at a time (`checkout`) and handed back afterwards (`checkin`): while
//! it is out, a second checkout of the same session is refused with `Busy`, so
//! commands on one session are serialized, and nothing done to one session
//! touches another. A removed identifier is retired for good.

use vstd::prelude::*;
use crate::models::{Session, SessionStatus};

verus! {

/// What stands in a session's transport slot.
pub enum Slot<T> {
    /// Allocated, still connecting: no transport bound yet.
    Pending,
    /// A transport bound and free for the next command.
    Idle(T),
    /// The transport is lent out to a running command.
    Busy,
}

/// A registered session and its transport slot.
pub struct Entry<T> {
    pub session: Session,
    pub slot: Slot<T>,
}

#[derive(Clone, Copy, Debug, PartialEq, Eq, Structural)]
pub enum RegistryError {
    /// No live session has this identifier.
    NotFound,
    /// The request contradicts the registry's state (identifier taken,
    /// transport already bound): a logic error of the caller.
    Conflict,
}

#[derive(Clone, Copy, Debug, PartialEq, Eq, Structural)]
pub enum CheckoutError {
    /// No live, connected session has this identifier.
    NotFound,
    /// Another command holds the session's transport; try again once it is back.
    Busy,
}

/// Status and slot agree: a pending slot while connecting, a bound one once connected.
pub open spec fn entry_ok<T>(e: Entry<T>) -> bool {
    if e.slot is Pending {
        e.session.status == SessionStatus::Connecting
    } else {
        e.session.status == SessionStatus::Connected
    }
}

pub open spec fn ids_unique<T>(s: Seq<Entry<T>>) -> bool {
    forall|i: int, j: int|
        0 <= i < s.len() && 0 <= j < s.len() && i != j ==> s[i].session.id != s[j].session.id
}

pub open spec fn has_id<T>(s: Seq<Entry<T>>, id: u128) -> bool {
    exists|i: int| 0 <= i < s.len() && s[i].session.id == id
}

/// The entries keyed by session identifier.
pub open spec fn entry_map<T>(s: Seq<Entry<T>>) -> Map<u128, Entry<T>> {
    Map::new(
        |id: u128| has_id(s, id),
        |id: u128| s[choose|i: int| 0 <= i < s.len() && s[i].session.id == id],
    )
}

/// The session as it stands after a status change at time `at`.
pub open spec fn restamped(s: Session, status: SessionStatus, at: i64) -> Session {
    Session { status: status, updated_at: at, ..s }
}

/// The session as it stands after it was closed with `status` at time `at`.
pub open spec fn closed(s: Session, status: SessionStatus, at: i64) -> Session {
    Session { status: status, updated_at: at, closed_at: Some(at), ..s }
}

/// The transport that a slot holds, if any.
pub open spec fn held<T>(slot: Slot<T>) -> Option<T> {
    match slot {
        Slot::Idle(t) => Some(t),
        _ => None,
    }
}

proof fn lemma_entry_at<T>(s: Seq<Entry<T>>, i: int)
    requires
        ids_unique(s),
        0 <= i < s.len(),
    ensures
        entry_map(s).contains_key(s[i].session.id),
        entry_map(s)[s[i].session.id] == s[i],
{
    let id = s[i].session.id;
    assert(has_id(s, id));
    let j = choose|j: int| 0 <= j < s.len() && s[j].session.id == id;
    assert(j == i);
}

proof fn lemma_push<T>(s: Seq<Entry<T>>, e: Entry<T>)
    requires
        ids_unique(s),
        !has_id(s, e.session.id),
    ensures
        ids_unique(s.push(e)),
        entry_map(s.push(e)) =~= entry_map(s).insert(e.session.id, e),
{
    let t = s.push(e);
    assert(ids_unique(t)) by {
        assert forall|i: int, j: int|
            0 <= i < t.len() && 0 <= j < t.len() && i != j implies t[i].session.id
            != t[j].session.id by {
            if i < s.len() && j < s.len() {
                assert(t[i] == s[i] && t[j] == s[j]);
            } else if i < s.len() {
                assert(t[i] == s[i]);
            } else {
                assert(t[j] == s[j]);
            }
        }
    }
    assert forall|id: u128| #[trigger] has_id(t, id) == (has_id(s, id) || id == e.session.id) by {
        if has_id(s, id) {
            let j = choose|j: int| 0 <= j < s.len() && s[j].session.id == id;
            assert(t[j] == s[j]);
        }
        if has_id(t, id) && id != e.session.id {
            let j = choose|j: int| 0 <= j < t.len() && t[j].session.id == id;
            assert(j < s.len() && s[j] == t[j]);
        }
        if id == e.session.id {
            assert(t[s.len() as int] == e);
        }
    }
    assert forall|id: u128| #[trigger] entry_map(t).contains_key(id) implies entry_map(t)[id]
        == entry_map(s).insert(e.session.id, e)[id] by {
        if id == e.session.id {
            lemma_entry_at(t, s.len() as int);
        } else {
            let j = choose|j: int| 0 <= j < s.len() && s[j].session.id == id;
            lemma_entry_at(s, j);
            lemma_entry_at(t, j);
        }
    }
}

proof fn lemma_update<T>(s: Seq<Entry<T>>, i: int, e: Entry<T>)
    requires
        ids_unique(s),
        0 <= i < s.len(),
        e.session.id == s[i].session.id,
    ensures
        ids_unique(s.update(i, e)),
        entry_map(s.update(i, e)) =~= entry_map(s).insert(e.session.id, e),
{
    let t = s.update(i, e);
    assert forall|id: u128| #[trigger] has_id(t, id) == has_id(s, id) by {
        if has_id(s, id) {
            let j = choose|j: int| 0 <= j < s.len() && s[j].session.id == id;
            assert(t[j].session.id == id);
        }
        if has_id(t, id) {
            let j = choose|j: int| 0 <= j < t.len() && t[j].session.id == id;
            assert(s[j].session.id == id);
        }
    }
    assert forall|id: u128| #[trigger] entry_map(t).contains_key(id) implies entry_map(t)[id]
        == entry_map(s).insert(e.session.id, e)[id] by {
        let j = choose|j: int| 0 <= j < s.len() && s[j].session.id == id;
        lemma_entry_at(s, j);
        lemma_entry_at(t, j);
    }
}

proof fn lemma_remove<T>(s: Seq<Entry<T>>, i: int)
    requires
        ids_unique(s),
        0 <= i < s.len(),
    ensures
        ids_unique(s.remove(i)),
        entry_map(s.remove(i)) =~= entry_map(s).remove(s[i].session.id),
{
    let t = s.remove(i);
    let gone = s[i].session.id;
    assert(ids_unique(t)) by {
        assert forall|a: int, b: int|
            0 <= a < t.len() && 0 <= b < t.len() && a != b implies t[a].session.id
            != t[b].session.id by {
            let sa = if a < i { a } else { a + 1 };
            let sb = if b < i { b } else { b + 1 };
            assert(t[a] == s[sa] && t[b] == s[sb]);
        }
    }
    assert forall|id: u128| #[trigger] has_id(t, id) == (has_id(s, id) && id != gone) by {
        if has_id(s, id) && id != gone {
            let j = choose|j: int| 0 <= j < s.len() && s[j].session.id == id;
            assert(j != i);
            let k = if j < i { j } else { j - 1 };
            assert(t[k] == s[j]);
        }
        if has_id(t, id) {
            let k = choose|k: int| 0 <= k < t.len() && t[k].session.id == id;
            let j = if k < i { k } else { k + 1 };
            assert(t[k] == s[j]);
            assert(j != i);
        }
    }
    assert forall|id: u128| #[trigger] entry_map(t).contains_key(id) implies entry_map(t)[id]
        == entry_map(s).remove(gone)[id] by {
        let k = choose|k: int| 0 <= k < t.len() && t[k].session.id == id;
        let j = if k < i { k } else { k + 1 };
        assert(t[k] == s[j]);
        lemma_entry_at(s, j);
        lemma_entry_at(t, k);
    }
}

/// Puts `s` into the newest-first list `r` after every session at least as
/// new, and returns where it went.
fn insert_newest_first(r: &mut Vec<Session>, s: Session) -> (p: usize)
    requires
        forall|a: int, b: int| 0 <= a < b < old(r)@.len() ==> old(r)@[a].created_at >= old(r)@[b].created_at,
    ensures
        p <= old(r)@.len(),
        final(r)@ == old(r)@.insert(p as int, s),
        forall|a: int, b: int| 0 <= a < b < final(r)@.len() ==> final(r)@[a].created_at >= final(r)@[b].created_at,
{
    let mut p: usize = 0;
    while p < r.len() && r[p].created_at >= s.created_at
        invariant
            p <= r@.len(),
            forall|k: int| 0 <= k < p ==> r@[k].created_at >= s.created_at,
        decreases r@.len() - p,
    {
        p = p + 1;
    }
    let ghost old_r = r@;
    proof {
        assert forall|k: int| p <= k < old_r.len() implies old_r[k].created_at < s.created_at by {
            assert(old_r[p as int].created_at < s.created_at);
            if k > p {
                assert(old_r[p as int].created_at >= old_r[k].created_at);
            }
        }
    }
    r.insert(p, s);
    proof {
        old_r.insert_ensures(p as int, s);
        assert forall|a: int, b: int| 0 <= a < b < r@.len() implies r@[a].created_at >= r@[b].created_at by {
            if b < p {
                assert(r@[a] == old_r[a] && r@[b] == old_r[b]);
            } else if b == p {
                assert(r@[a] == old_r[a]);
            } else if a < p {
                assert(r@[a] == old_r[a] && r@[b] == old_r[b - 1]);
            } else if a == p {
                assert(r@[b] == old_r[b - 1]);
            } else {
                assert(r@[a] == old_r[a - 1] && r@[b] == old_r[b - 1]);
            }
        }
    }
    p
}

/// The live sessions, each with its transport slot, and the identifiers
/// retired so far.
pub struct SessionRegistry<T> {
    entries: Vec<Entry<T>>,
    retired: Vec<u128>,
}

impl<T> View for SessionRegistry<T> {
    type V = Map<u128, Entry<T>>;

    closed spec fn view(&self) -> Map<u128, Entry<T>> {
        entry_map(self.entries@)
    }
}

impl<T> SessionRegistry<T> {
    /// Identifiers that were removed and can never be used again.
    pub closed spec fn retired_ids(&self) -> Set<u128> {
        self.retired@.to_set()
    }

    /// The registry's invariant.
    pub closed spec fn wf(&self) -> bool {
        &&& ids_unique(self.entries@)
        &&& forall|i: int|
            0 <= i < self.entries@.len() ==> !self.retired@.contains(
                #[trigger] self.entries@[i].session.id,
            )
        &&& forall|i: int| 0 <= i < self.entries@.len() ==> entry_ok(#[trigger] self.entries@[i])
    }

    /// What the invariant says of the keyed view.
    pub proof fn lemma_view(&self, id: u128)
        requires
            self.wf(),
        ensures
            self@.contains_key(id) ==> {
                &&& self@[id].session.id == id
                &&& entry_ok(self@[id])
                &&& !self.retired_ids().contains(id)
            },
    {
        if self@.contains_key(id) {
            let j = choose|j: int|
                0 <= j < self.entries@.len() && self.entries@[j].session.id == id;
            lemma_entry_at(self.entries@, j);
            assert(self.entries@[j] == self@[id]);
            if self.retired_ids().contains(id) {
                assert(self.retired@.contains(self.entries@[j].session.id));
            }
        }
    }

    /// The outcome that `lookup` returns.
    pub open spec fn lookup_spec(&self, id: u128) -> Result<Session, RegistryError> {
        if self@.contains_key(id) {
            Ok(self@[id].session)
        } else {
            Err(RegistryError::NotFound)
        }
    }

    /// Whether `checkout` would lend the transport out, and if not, why.
    pub open spec fn checkout_spec(&self, id: u128) -> Result<(), CheckoutError> {
        if !self@.contains_key(id) {
            Err(CheckoutError::NotFound)
        } else {
            match self@[id].slot {
                Slot::Pending => Err(CheckoutError::NotFound),
                Slot::Busy => Err(CheckoutError::Busy),
                Slot::Idle(_) => Ok(()),
            }
        }
    }

    pub fn new() -> (r: Self)
        ensures
            r.wf(),
            r@ == Map::<u128, Entry<T>>::empty(),
            r.retired_ids() == Set::<u128>::empty(),
    {
        let r = SessionRegistry { entries: Vec::new(), retired: Vec::new() };
        assert(r@ =~= Map::<u128, Entry<T>>::empty());
        assert(r.retired_ids() =~= Set::<u128>::empty());
        r
    }

    fn find(&self, id: u128) -> (r: Option<usize>)
        requires
            self.wf(),
        ensures
            match r {
                Some(i) => i < self.entries@.len() && self.entries@[i as int].session.id == id,
                None => !has_id(self.entries@, id),
            },
    {
        let mut i: usize = 0;
        while i < self.entries.len()
            invariant
                i <= self.entries@.len(),
                forall|k: int| 0 <= k < i ==> self.entries@[k].session.id != id,
            decreases self.entries@.len() - i,
        {
            if self.entries[i].session.id == id {
                return Some(i);
            }
            i = i + 1;
        }
        None
    }

    fn is_retired(&self, id: u128) -> (r: bool)
        ensures
            r == self.retired_ids().contains(id),
    {
        let mut i: usize = 0;
        while i < self.retired.len()
            invariant
                i <= self.retired@.len(),
                forall|k: int| 0 <= k < i ==> self.retired@[k] != id,
            decreases self.retired@.len() - i,
        {
            if self.retired[i] == id {
                assert(self.retired@.contains(id));
                return true;
            }
            i = i + 1;
        }
        false
    }

    /// Reserves `id` for a new session owned by `user_id`, in status Connecting.
    ///
    /// Fails with Conflict where the identifier is live or was ever retired.
    pub fn allocate(
        &mut self,
        id: u128,
        user_id: u128,
        host: String,
        port: u16,
        username: String,
        now: i64,
    ) -> (r: Result<(), RegistryError>)
        requires
            old(self).wf(),
        ensures
            final(self).wf(),
            final(self).retired_ids() == old(self).retired_ids(),
            r is Ok <==> !old(self)@.contains_key(id) && !old(self).retired_ids().contains(id),
            r is Ok ==> final(self)@ == old(self)@.insert(
                id,
                Entry {
                    session: Session {
                        id: id,
                        user_id: user_id,
                        host: host,
                        port: port,
                        username: username,
                        status: SessionStatus::Connecting,
                        created_at: now,
                        updated_at: now,
                        closed_at: None,
                    },
                    slot: Slot::Pending,
                },
            ),
            r is Err ==> r == Err::<(), RegistryError>(RegistryError::Conflict) && final(self)@
                == old(self)@,
    {
        if self.is_retired(id) {
            return Err(RegistryError::Conflict);
        }
        match self.find(id) {
            Some(i) => {
                proof {
                    lemma_entry_at(self.entries@, i as int);
                }
                Err(RegistryError::Conflict)
            },
            None => {
                let e = Entry {
                    session: Session {
                        id: id,
                        user_id: user_id,
                        host: host,
                        port: port,
                        username: username,
                        status: SessionStatus::Connecting,
                        created_at: now,
                        updated_at: now,
                        closed_at: None,
                    },
                    slot: Slot::Pending,
                };
                proof {
                    lemma_push(self.entries@, e);
                }
                self.entries.push(e);
                assert forall|i: int| 0 <= i < self.entries@.len() implies !self.retired@.contains(
                    #[trigger] self.entries@[i].session.id,
                ) && entry_ok(self.entries@[i]) by {
                    if i < self.entries@.len() - 1 {
                        assert(self.entries@[i] == old(self).entries@[i]);
                    }
                }
                Ok(())
            },
        }
    }

    /// Puts `e` in place of the entry at `i`, handing back the one it replaces.
    fn swap_entry(&mut self, i: usize, e: Entry<T>) -> (r: Entry<T>)
        requires
            i < old(self).entries@.len(),
        ensures
            r == old(self).entries@[i as int],
            final(self).entries@ == old(self).entries@.update(i as int, e),
            final(self).retired == old(self).retired,
    {
        let r = self.entries.remove(i);
        self.entries.insert(i, e);
        assert(self.entries@ =~= old(self).entries@.update(i as int, e));
        r
    }

    /// Binds a live transport to an allocated session, which becomes Connected.
    ///
    /// Fails with Conflict where the identifier is not allocated or already
    /// has a transport; the transport is then dropped.
    pub fn install(&mut self, id: u128, transport: T, now: i64) -> (r: Result<(), RegistryError>)
        requires
            old(self).wf(),
        ensures
            final(self).wf(),
            final(self).retired_ids() == old(self).retired_ids(),
            r is Ok <==> old(self)@.contains_key(id) && old(self)@[id].slot is Pending,
            r is Ok ==> old(self)@[id].session.status.allows(SessionStatus::Connected),
            r is Ok ==> final(self)@ == old(self)@.insert(
                id,
                Entry {
                    session: restamped(old(self)@[id].session, SessionStatus::Connected, now),
                    slot: Slot::Idle(transport),
                },
            ),
            r is Err ==> r == Err::<(), RegistryError>(RegistryError::Conflict) && final(self)@
                == old(self)@,
    {
        match self.find(id) {
            None => Err(RegistryError::Conflict),
            Some(i) => {
                proof {
                    lemma_entry_at(self.entries@, i as int);
                }
                if !matches!(self.entries[i].slot, Slot::Pending) {
                    return Err(RegistryError::Conflict);
                }
                let ghost before = self.entries@;
                let placeholder = Entry { session: self.entries[i].session.duplicate(), slot: Slot::Pending };
                let old_entry = self.swap_entry(i, placeholder);
                let mut session = old_entry.session;
                session.status = SessionStatus::Connected;
                session.updated_at = now;
                let e = Entry { session: session, slot: Slot::Idle(transport) };
                self.swap_entry(i, e);
                proof {
                    assert(self.entries@ =~= before.update(i as int, e));
                    lemma_update(before, i as int, e);
                    assert forall|k: int| 0 <= k < self.entries@.len() implies !self.retired@.contains(
                        #[trigger] self.entries@[k].session.id,
                    ) && entry_ok(self.entries@[k]) by {
                        if k != i {
                            assert(self.entries@[k] == before[k]);
                        }
                    }
                }
                Ok(())
            },
        }
    }

    /// The session registered under `id`, without its transport.
    pub fn lookup(&self, id: u128) -> (r: Result<Session, RegistryError>)
        requires
            self.wf(),
        ensures
            r == self.lookup_spec(id),
    {
        match self.find(id) {
            None => Err(RegistryError::NotFound),
            Some(i) => {
                proof {
                    lemma_entry_at(self.entries@, i as int);
                }
                Ok(self.entries[i].session.duplicate())
            },
        }
    }

    /// Lends out the transport of a connected session for one command.
    ///
    /// Until it is handed back with `checkin`, a second checkout of the same
    /// session returns Busy.
    pub fn checkout(&mut self, id: u128) -> (r: Result<T, CheckoutError>)
        requires
            old(self).wf(),
        ensures
            final(self).wf(),
            final(self).retired_ids() == old(self).retired_ids(),
            r is Ok <==> old(self).checkout_spec(id) is Ok,
            match r {
                Ok(t) => {
                    &&& old(self)@[id].slot == Slot::Idle(t)
                    &&& final(self)@ == old(self)@.insert(
                        id,
                        Entry { session: old(self)@[id].session, slot: Slot::Busy },
                    )
                },
                Err(e) => {
                    &&& old(self).checkout_spec(id) == Err::<(), CheckoutError>(e)
                    &&& final(self)@ == old(self)@
                },
            },
    {
        match self.find(id) {
            None => Err(CheckoutError::NotFound),
            Some(i) => {
                proof {
                    lemma_entry_at(self.entries@, i as int);
                }
                match self.entries[i].slot {
                    Slot::Pending => {
                        return Err(CheckoutError::NotFound);
                    },
                    Slot::Busy => {
                        return Err(CheckoutError::Busy);
                    },
                    Slot::Idle(_) => {},
                }
                let ghost before = self.entries@;
                let placeholder = Entry { session: self.entries[i].session.duplicate(), slot: Slot::Busy };
                let old_entry = self.swap_entry(i, placeholder);
                let Entry { session, slot } = old_entry;
                match slot {
                    Slot::Idle(t) => {
                        proof {
                            lemma_update(before, i as int, placeholder);
                            assert forall|k: int| 0 <= k < self.entries@.len() implies !self.retired@.contains(
                                #[trigger] self.entries@[k].session.id,
                            ) && entry_ok(self.entries@[k]) by {
                                if k != i {
                                    assert(self.entries@[k] == before[k]);
                                }
                            }
                        }
                        Ok(t)
                    },
                    _ => {
                        // the slot was seen Idle above
                        proof {
                            assert(false);
                        }
                        Err(CheckoutError::Busy)
                    },
                }
            },
        }
    }

    /// Hands a lent-out transport back to its session.
    ///
    /// Returns `None` when the session was waiting for it; otherwise the
    /// session is gone (closed or failed meanwhile) and the transport comes
    /// back to the caller, for disposal.
    pub fn checkin(&mut self, id: u128, transport: T) -> (r: Option<T>)
        requires
            old(self).wf(),
        ensures
            final(self).wf(),
            final(self).retired_ids() == old(self).retired_ids(),
            r is None <==> old(self)@.contains_key(id) && old(self)@[id].slot is Busy,
            r is None ==> final(self)@ == old(self)@.insert(
                id,
                Entry { session: old(self)@[id].session, slot: Slot::Idle(transport) },
            ),
            r is Some ==> r == Some(transport) && final(self)@ == old(self)@,
    {
        match self.find(id) {
            None => Some(transport),
            Some(i) => {
                proof {
                    lemma_entry_at(self.entries@, i as int);
                }
                if !matches!(self.entries[i].slot, Slot::Busy) {
                    return Some(transport);
                }
                let ghost before = self.entries@;
                let placeholder = Entry { session: self.entries[i].session.duplicate(), slot: Slot::Busy };
                let old_entry = self.swap_entry(i, placeholder);
                let e = Entry { session: old_entry.session, slot: Slot::Idle(transport) };
                self.swap_entry(i, e);
                proof {
                    assert(self.entries@ =~= before.update(i as int, e));
                    lemma_update(before, i as int, e);
                    assert forall|k: int| 0 <= k < self.entries@.len() implies !self.retired@.contains(
                        #[trigger] self.entries@[k].session.id,
                    ) && entry_ok(self.entries@[k]) by {
                        if k != i {
                            assert(self.entries@[k] == before[k]);
                        }
                    }
                }
                None
            },
        }
    }

    /// Detaches a session for good: its identifier is retired, and the
    /// session, closed with the terminal `status` at `now`, comes back with
    /// its transport if one was bound and not lent out.
    pub fn remove(&mut self, id: u128, status: SessionStatus, now: i64) -> (r: Result<
        (Session, Option<T>),
        RegistryError,
    >)
        requires
            old(self).wf(),
            status.terminal(),
        ensures
            final(self).wf(),
            r is Ok <==> old(self)@.contains_key(id),
            r is Ok ==> old(self)@[id].session.status.allows(status),
            match r {
                Ok((s, t)) => {
                    &&& s == closed(old(self)@[id].session, status, now)
                    &&& t == held(old(self)@[id].slot)
                    &&& final(self)@ == old(self)@.remove(id)
                    &&& final(self).retired_ids() == old(self).retired_ids().insert(id)
                },
                Err(e) => {
                    &&& e == RegistryError::NotFound
                    &&& final(self)@ == old(self)@
                    &&& final(self).retired_ids() == old(self).retired_ids()
                },
            },
    {
        match self.find(id) {
            None => Err(RegistryError::NotFound),
            Some(i) => {
                proof {
                    lemma_entry_at(self.entries@, i as int);
                    lemma_remove(self.entries@, i as int);
                }
                let ghost before = self.entries@;
                let Entry { session, slot } = self.entries.remove(i);
                self.retired.push(id);
                let mut s = session;
                s.status = status;
                s.updated_at = now;
                s.closed_at = Some(now);
                let t = match slot {
                    Slot::Idle(t) => Some(t),
                    _ => None,
                };
                proof {
                    old(self).retired@.lemma_push_to_set_commute(id);
                    assert(self.retired@ == old(self).retired@.push(id));
                    assert forall|k: int| 0 <= k < self.entries@.len() implies !self.retired@.contains(
                        #[trigger] self.entries@[k].session.id,
                    ) && entry_ok(self.entries@[k]) by {
                        let j = if k < i { k } else { k + 1 };
                        assert(self.entries@[k] == before[j]);
                        assert(j != i);
                        assert(before[j].session.id != id);
                        if self.retired@.contains(self.entries@[k].session.id) {
                            let m = choose|m: int| 0 <= m < self.retired@.len() && self.retired@[m] == self.entries@[k].session.id;
                            if m < old(self).retired@.len() {
                                assert(old(self).retired@[m] == self.retired@[m]);
                                assert(old(self).retired@.contains(before[j].session.id));
                            }
                        }
                    }
                }
                Ok((s, t))
            },
        }
    }

    /// A snapshot of the live sessions that `user_id` owns, each once,
    /// newest first by creation time.
    pub fn list_by_owner(&self, user_id: u128) -> (r: Vec<Session>)
        requires
            self.wf(),
        ensures
            forall|k: int|
                0 <= k < r@.len() ==> {
                    &&& self@.contains_key(#[trigger] r@[k].id)
                    &&& self@[r@[k].id].session == r@[k]
                    &&& r@[k].user_id == user_id
                },
            forall|id: u128|
                #[trigger] self@.contains_key(id) && self@[id].session.user_id == user_id ==> exists|
                    k: int,
                | 0 <= k < r@.len() && r@[k] == self@[id].session,
            forall|a: int, b: int| 0 <= a < r@.len() && 0 <= b < r@.len() && a != b ==> r@[a].id != r@[b].id,
            forall|a: int, b: int| 0 <= a < b < r@.len() ==> r@[a].created_at >= r@[b].created_at,
    {
        let mut r: Vec<Session> = Vec::new();
        let ghost mut idx: Seq<int> = Seq::empty();
        let mut i: usize = 0;
        while i < self.entries.len()
            invariant
                self.wf(),
                i <= self.entries@.len(),
                idx.len() == r@.len(),
                forall|k: int|
                    0 <= k < idx.len() ==> 0 <= #[trigger] idx[k] < i && r@[k]
                        == self.entries@[idx[k]].session && r@[k].user_id == user_id,
                forall|a: int, b: int| 0 <= a < idx.len() && 0 <= b < idx.len() && a != b ==> idx[a] != idx[b],
                forall|j: int|
                    0 <= j < i && (#[trigger] self.entries@[j]).session.user_id == user_id ==> exists|
                        k: int,
                    | 0 <= k < idx.len() && idx[k] == j,
                forall|a: int, b: int| 0 <= a < b < r@.len() ==> r@[a].created_at >= r@[b].created_at,
            decreases self.entries@.len() - i,
        {
            if self.entries[i].session.user_id == user_id {
                let s = self.entries[i].session.duplicate();
                let ghost old_r = r@;
                let ghost old_idx = idx;
                let p = insert_newest_first(&mut r, s);
                proof {
                    idx = old_idx.insert(p as int, i as int);
                    old_r.insert_ensures(p as int, s);
                    old_idx.insert_ensures(p as int, i as int);
                    assert forall|k: int| 0 <= k < idx.len() implies 0 <= #[trigger] idx[k] < i + 1 && r@[k]
                        == self.entries@[idx[k]].session && r@[k].user_id == user_id by {
                        if k < p {
                            assert(idx[k] == old_idx[k] && r@[k] == old_r[k]);
                        } else if k > p {
                            assert(idx[k] == old_idx[k - 1] && r@[k] == old_r[k - 1]);
                        }
                    }
                    assert forall|a: int, b: int| 0 <= a < idx.len() && 0 <= b < idx.len() && a != b implies idx[a]
                        != idx[b] by {
                        let oa = if a < p { a } else { a - 1 };
                        let ob = if b < p { b } else { b - 1 };
                        if a != p && b != p {
                            assert(idx[a] == old_idx[oa] && idx[b] == old_idx[ob]);
                        } else if a == p {
                            assert(idx[b] == old_idx[ob]);
                        } else {
                            assert(idx[a] == old_idx[oa]);
                        }
                    }
                    assert forall|j: int|
                        0 <= j < i + 1 && (#[trigger] self.entries@[j]).session.user_id == user_id implies exists|
                            k: int,
                        | 0 <= k < idx.len() && idx[k] == j by {
                        if j == i {
                            assert(idx[p as int] == j);
                        } else {
                            let k = choose|k: int| 0 <= k < old_idx.len() && old_idx[k] == j;
                            if k < p {
                                assert(idx[k] == j);
                            } else {
                                assert(idx[k + 1] == j);
                            }
                        }
                    }
                }
            }
            i = i + 1;
        }
        proof {
            assert forall|k: int| 0 <= k < r@.len() implies {
                &&& self@.contains_key(#[trigger] r@[k].id)
                &&& self@[r@[k].id].session == r@[k]
                &&& r@[k].user_id == user_id
            } by {
                lemma_entry_at(self.entries@, idx[k]);
            }
            assert forall|id: u128|
                #[trigger] self@.contains_key(id) && self@[id].session.user_id == user_id implies exists|
                    k: int,
                | 0 <= k < r@.len() && r@[k] == self@[id].session by {
                let j = choose|j: int| 0 <= j < self.entries@.len() && self.entries@[j].session.id == id;
                lemma_entry_at(self.entries@, j);
                assert(self.entries@[j].session.user_id == user_id);
                let k = choose|k: int| 0 <= k < idx.len() && idx[k] == j;
                assert(r@[k] == self@[id].session);
            }
            assert forall|a: int, b: int| 0 <= a < r@.len() && 0 <= b < r@.len() && a != b implies r@[a].id
                != r@[b].id by {
                assert(idx[a] != idx[b]);
                assert(self.entries@[idx[a]].session.id != self.entries@[idx[b]].session.id);
            }
        }
        r
    }

    /// A retired identifier is found by neither `lookup` nor `checkout`.
    /// Every operation keeps the identifiers retired so far, and `allocate`
    /// refuses them, so a session that reached a terminal status never serves
    /// a command again.
    pub proof fn lemma_retired_stays_gone(&self, id: u128)
        requires
            self.wf(),
            self.retired_ids().contains(id),
        ensures
            !self@.contains_key(id),
            self.lookup_spec(id) == Err::<Session, RegistryError>(RegistryError::NotFound),
            self.checkout_spec(id) == Err::<(), CheckoutError>(CheckoutError::NotFound),
    {
        self.lemma_view(id);
    }

    /// After a session is removed, looking it up finds nothing.
    pub proof fn lemma_removed_not_found(before: &Self, after: &Self, id: u128)
        requires
            after@ == before@.remove(id),
        ensures
            !after@.contains_key(id),
            after.lookup_spec(id) == Err::<Session, RegistryError>(RegistryError::NotFound),
            after.checkout_spec(id) == Err::<(), CheckoutError>(CheckoutError::NotFound),
    {
    }

    /// Once a session's transport is lent out, the next checkout of that
    /// session is refused with Busy: commands on one session never overlap.
    pub proof fn lemma_checkout_exclusive(before: &Self, after: &Self, id: u128)
        requires
            before.checkout_spec(id) is Ok,
            after@ == before@.insert(id, Entry { session: before@[id].session, slot: Slot::Busy }),
        ensures
            after.checkout_spec(id) == Err::<(), CheckoutError>(CheckoutError::Busy),
    {
    }

    /// What is done to one session (allocating, binding, lending out, handing
    /// back or removing it) leaves every other session's lookup and checkout
    /// exactly as they were: a command on one session never waits on another.
    pub proof fn lemma_sessions_independent(before: &Self, after: &Self, a: u128, b: u128)
        requires
            a != b,
            forall|id: u128| id != a ==> (#[trigger] after@.contains_key(id)) == before@.contains_key(id),
            forall|id: u128| id != a && #[trigger] after@.contains_key(id) ==> after@[id] == before@[id],
        ensures
            after.lookup_spec(b) == before.lookup_spec(b),
            after.checkout_spec(b) == before.checkout_spec(b),
    {
    }
}

} // verus!

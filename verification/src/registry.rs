//! The connection registry: a table of live sessions, each owned
//! exclusively by the registry and addressed by a unique 128-bit
//! identifier issued at registration.
//!
//! The registry is generic in the session handle it stores, so the same
//! verified table serves the live driver connections of the embedding
//! program and the plain handles of the tests. The embedding program
//! guards one registry with one lock, acquired only around these calls
//! and never across network I/O.

use vstd::prelude::*;
use vstd::set_lib::range_set_properties;
use vstd::set_lib::lemma_len_subset;
use std::collections::HashMap;

verus! {

broadcast use vstd::std_specs::hash::group_hash_axioms;

/// The error taxonomy of the library. Connecting fails with
/// `ConnectionError`; an operation that addresses an identifier with no
/// live session fails with `NoConnection`; a statement the driver
/// rejected fails with `QueryError` carrying the driver's message
/// unmodified.
#[derive(Clone, PartialEq, Debug)]
pub enum DbError {
    ConnectionError(String),
    NoConnection,
    QueryError(String),
}

/// Relies on `uuid::Uuid::new_v4` for a fresh random identifier: a
/// version-4 RFC 4122 UUID drawn from the process's secure random
/// source, returned as its big-endian 128-bit value, so the version
/// nibble holds 4 and the two variant bits hold binary 10.
#[verifier::external_body]
fn random_session_id() -> (r: u128)
    ensures
        (r >> 76) & 0xf == 4,
        (r >> 62) & 0x3 == 2,
{
    uuid::Uuid::new_v4().as_u128()
}

/// The session table: identifier to live session handle. Its view is the
/// map of registered sessions.
pub struct Registry<H> {
    table: HashMap<u128, H>,
    ids: Vec<u128>,
}

impl<H> View for Registry<H> {
    type V = Map<u128, H>;

    closed spec fn view(&self) -> Map<u128, H> {
        self.table@
    }
}

impl<H> Registry<H> {
    #[verifier::type_invariant]
    spec fn inv(self) -> bool {
        self.ids@.no_duplicates() && self.ids@.to_set() == self.table@.dom()
    }

    /// An empty registry.
    pub fn new() -> (r: Self)
        ensures
            r@ == Map::<u128, H>::empty(),
    {
        let table: HashMap<u128, H> = HashMap::new();
        let ids: Vec<u128> = Vec::new();
        proof {
            assert(ids@.to_set() =~= table@.dom());
        }
        Registry { table, ids }
    }

    /// Whether an identifier has a live session.
    pub fn contains(&self, id: u128) -> (b: bool)
        ensures
            b == self@.contains_key(id),
    {
        self.table.contains_key(&id)
    }

    /// The number of live sessions.
    pub fn session_count(&self) -> (n: usize)
        ensures
            n == self@.len(),
    {
        self.table.len()
    }

    /// The least identifier without a session, found by sweeping upward:
    /// the table cannot contain every identifier below its own size plus
    /// one, so the sweep ends.
    fn least_unused_id(table: &HashMap<u128, H>, ids: &Vec<u128>) -> (id: u128)
        requires
            ids@.no_duplicates(),
            ids@.to_set() == table@.dom(),
        ensures
            !table@.contains_key(id),
    {
        let cap: usize = ids.len();
        let mut candidate: u128 = 0;
        loop
            invariant
                ids@.no_duplicates(),
                ids@.to_set() == table@.dom(),
                cap == ids@.len(),
                candidate <= cap,
                forall|k: u128| k < candidate ==> table@.dom().contains(k),
            ensures
                !table@.contains_key(candidate),
            decreases cap - candidate,
        {
            if !table.contains_key(&candidate) {
                break ;
            }
            proof {
                let below = Set::<u128>::range(0, (candidate + 1) as u128);
                range_set_properties::<u128>(0, (candidate + 1) as u128);
                assert(below.subset_of(table@.dom()));
                ids@.unique_seq_to_set();
                lemma_len_subset(below, table@.dom());
            }
            candidate = candidate + 1;
        }
        candidate
    }

    /// Issues a fresh identifier, never one with a live session, and
    /// registers the handle under it. The identifier is a random
    /// version-4 UUID value; on the vanishingly unlikely collision the
    /// least unused identifier stands in, keeping the operation total.
    pub fn connect(&mut self, handle: H) -> (id: u128)
        ensures
            !old(self)@.contains_key(id),
            final(self)@ == old(self)@.insert(id, handle),
    {
        proof {
            use_type_invariant(&*self);
        }
        let mut tmp = Self::new();
        std::mem::swap(&mut tmp, self);
        let Registry { table: mut table, ids: mut ids } = tmp;
        let mut id = random_session_id();
        if table.contains_key(&id) {
            id = Self::least_unused_id(&table, &ids);
        }
        table.insert(id, handle);
        ids.push(id);
        proof {
            old(self).ids@.lemma_push_to_set_commute(id);
            assert(ids@.to_set() =~= table@.dom());
            assert forall|p: int, q: int| 0 <= p < q < ids@.len() implies ids@[p] != ids@[q] by {
                if q == ids@.len() - 1 {
                    assert(old(self).ids@.to_set().contains(old(self).ids@[p]));
                }
            }
        }
        *self = Registry { table, ids };
        id
    }

    /// Removes and releases the session of an identifier; removing an
    /// absent identifier changes nothing. Idempotent.
    pub fn disconnect(&mut self, id: u128)
        ensures
            final(self)@ == old(self)@.remove(id),
    {
        proof {
            use_type_invariant(&*self);
        }
        let mut tmp = Self::new();
        std::mem::swap(&mut tmp, self);
        let Registry { table: mut table, ids: mut ids } = tmp;
        table.remove(&id);
        let mut i: usize = 0;
        loop
            invariant
                ids@ == old(self).ids@,
                i <= ids@.len(),
                forall|j: int| 0 <= j < i ==> ids@[j] != id,
            ensures
                i <= ids@.len(),
                forall|j: int| 0 <= j < i ==> ids@[j] != id,
                i < ids@.len() ==> ids@[i as int] == id,
                i == ids@.len() ==> !ids@.contains(id),
            decreases ids@.len() - i,
        {
            if i >= ids.len() {
                break ;
            }
            if ids[i] == id {
                break ;
            }
            i = i + 1;
        }
        if i < ids.len() {
            ids.remove(i);
            proof {
                let before = old(self).ids@;
                assert forall|p: int, q: int| 0 <= p < q < ids@.len() implies ids@[p] != ids@[q]
                by {
                    assert(ids@[p] == if p < i {
                        before[p]
                    } else {
                        before[p + 1]
                    });
                    assert(ids@[q] == if q < i {
                        before[q]
                    } else {
                        before[q + 1]
                    });
                }
                assert forall|x: u128| ids@.to_set().contains(x) <==> table@.dom().contains(x)
                by {
                    if ids@.contains(x) {
                        let j = choose|j: int| 0 <= j < ids@.len() && ids@[j] == x;
                        assert(before[if j < i {
                            j
                        } else {
                            j + 1
                        }] == x);
                        assert(before.to_set().contains(x));
                        assert(x != id);
                    }
                    if table@.dom().contains(x) {
                        assert(before.to_set().contains(x) && x != id);
                        let j = choose|j: int| 0 <= j < before.len() && before[j] == x;
                        if j < i {
                            assert(ids@[j] == x);
                        } else {
                            assert(before[i as int] == id);
                            assert(ids@[j - 1] == x);
                        }
                        assert(ids@.to_set().contains(x));
                    }
                }
                assert(ids@.to_set() =~= table@.dom());
            }
        } else {
            proof {
                assert(!old(self).ids@.to_set().contains(id));
                assert(ids@.to_set() =~= table@.dom());
            }
        }
        *self = Registry { table, ids };
    }

    /// The live session of an identifier, or `NoConnection` if it has
    /// none.
    pub fn lookup(&self, id: u128) -> (r: Result<&H, DbError>)
        ensures
            match r {
                Ok(h) => self@.contains_key(id) && *h == self@[id],
                Err(e) => !self@.contains_key(id) && e == DbError::NoConnection,
            },
    {
        match self.table.get(&id) {
            Some(h) => Ok(h),
            None => Err(DbError::NoConnection),
        }
    }

    /// A snapshot of the registered identifiers, each exactly once.
    pub fn session_ids(&self) -> (r: Vec<u128>)
        ensures
            r@.no_duplicates(),
            r@.to_set() == self@.dom(),
    {
        proof {
            use_type_invariant(&*self);
        }
        let mut out: Vec<u128> = Vec::new();
        let mut i: usize = 0;
        while i < self.ids.len()
            invariant
                i <= self.ids@.len(),
                out@ == self.ids@.take(i as int),
            decreases self.ids@.len() - i,
        {
            out.push(self.ids[i]);
            proof {
                assert(out@ =~= self.ids@.take(i as int + 1));
            }
            i = i + 1;
        }
        proof {
            assert(out@ =~= self.ids@);
        }
        out
    }
}

/// Identifier uniqueness across registrations: a connection is only ever
/// registered under an identifier with no session, so two sessions
/// registered one after the other never share an identifier, whatever
/// else the table holds.
pub proof fn lemma_session_ids_distinct<H>(m0: Map<u128, H>, h1: H, id1: u128, id2: u128)
    requires
        !m0.contains_key(id1),
        !m0.insert(id1, h1).contains_key(id2),
    ensures
        id1 != id2,
{
}

/// After a disconnect, the identifier has no session: any later lookup
/// of it yields `NoConnection`, whatever the table held before.
pub proof fn lemma_disconnected_id_unresolvable<H>(m: Map<u128, H>, id: u128)
    ensures
        !m.remove(id).contains_key(id),
{
}

} // verus!

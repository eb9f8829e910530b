//! The client session registry: the ids of the live sessions, and to which
//! of them a message goes.
use vstd::prelude::*;
use vstd::set_lib::{set_int_range, lemma_int_range, lemma_len_subset};

verus! {

/// Relies on `rand::random`: a value drawn from the thread-local generator.
/// Nothing is promised of the value.
pub assume_specification<T>[ rand::random::<T> ]() -> (r: T)
    where
        rand::distributions::Standard: rand::distributions::Distribution<T>,
;

/// The sessions that a message for session `session_id` goes to, among the
/// live sessions `live`: that session alone if it is live, else none.
pub open spec fn delivery_targets(live: Seq<u64>, session_id: u64) -> Seq<u64> {
    if live.contains(session_id) {
        seq![session_id]
    } else {
        Seq::empty()
    }
}

/// The registry of live sessions. Its model is the sequence of live session
/// ids, in the order they were opened.
pub struct ClientRegistryActor {
    clients: Vec<u64>,
}

impl View for ClientRegistryActor {
    type V = Seq<u64>;

    closed spec fn view(&self) -> Seq<u64> {
        self.clients@
    }
}

/// The session ids in `s`, as integers.
spec fn id_set(s: Seq<u64>) -> Set<int> {
    s.map_values(|x: u64| x as int).to_set()
}

impl ClientRegistryActor {
    /// A registry with no session.
    pub fn new() -> (r: Self)
        ensures
            r@ == Seq::<u64>::empty(),
            r@.no_duplicates(),
    {
        ClientRegistryActor { clients: Vec::new() }
    }

    /// Whether `session_id` is live.
    pub fn is_live(&self, session_id: u64) -> (r: bool)
        ensures
            r == self@.contains(session_id),
    {
        let mut i: usize = 0;
        while i < self.clients.len()
            invariant
                0 <= i <= self.clients@.len(),
                forall|j: int| 0 <= j < i ==> self.clients@[j] != session_id,
            decreases self.clients@.len() - i,
        {
            if self.clients[i] == session_id {
                return true;
            }
            i = i + 1;
        }
        false
    }

    /// Opens a session under `candidate` when no live session has that id.
    /// Returns whether it did.
    pub fn register_with_id(&mut self, candidate: u64) -> (r: bool)
        requires
            old(self)@.no_duplicates(),
        ensures
            final(self)@.no_duplicates(),
            r == !old(self)@.contains(candidate),
            r ==> final(self)@ == old(self)@.push(candidate),
            !r ==> final(self)@ == old(self)@,
    {
        if self.is_live(candidate) {
            false
        } else {
            self.clients.push(candidate);
            true
        }
    }

    /// The smallest id that no live session has.
    fn free_id(&self) -> (r: u64)
        ensures
            !self@.contains(r),
    {
        let n = self.clients.len();
        let mut k: usize = 0;
        while k < n
            invariant
                n == self.clients@.len(),
                0 <= k <= n,
                forall|j: u64| j < k ==> #[trigger] self@.contains(j),
            decreases n - k,
        {
            if !self.is_live(k as u64) {
                return k as u64;
            }
            k = k + 1;
        }
        if !self.is_live(n as u64) {
            return n as u64;
        }
        proof {
            let s = self@;
            let ids = id_set(s);
            let mapped = s.map_values(|x: u64| x as int);
            mapped.lemma_cardinality_of_set();
            lemma_int_range(0, n + 1);
            assert forall|j: int| set_int_range(0, n + 1).contains(j) implies ids.contains(j) by {
                if j < n {
                    assert(s.contains(j as u64));
                }
                assert(s.contains(j as u64));
                let p = choose|p: int| 0 <= p < s.len() && s[p] == j as u64;
                assert(mapped[p] == j);
            }
            lemma_len_subset(set_int_range(0, n + 1), ids);
        }
        0
    }

    /// Opens a session under a freshly drawn id that no live session has,
    /// and returns that id. The id is drawn at random; should it be taken,
    /// the smallest free id is used instead.
    pub fn register_client(&mut self) -> (r: u64)
        requires
            old(self)@.no_duplicates(),
        ensures
            final(self)@.no_duplicates(),
            !old(self)@.contains(r),
            final(self)@ == old(self)@.push(r),
    {
        let drawn: u64 = rand::random();
        let id = if self.is_live(drawn) {
            self.free_id()
        } else {
            drawn
        };
        self.clients.push(id);
        id
    }

    /// Closes the session `session_id`, if it is live.
    pub fn deregister_client(&mut self, session_id: u64)
        requires
            old(self)@.no_duplicates(),
        ensures
            final(self)@.no_duplicates(),
            !final(self)@.contains(session_id),
            forall|x: u64| x != session_id ==> (final(self)@.contains(x) <==> old(self)@.contains(x)),
    {
        let mut i: usize = 0;
        while i < self.clients.len()
            invariant
                0 <= i <= self.clients@.len(),
                self.clients@ == old(self)@,
                old(self)@.no_duplicates(),
                forall|j: int| 0 <= j < i ==> self.clients@[j] != session_id,
            decreases self.clients@.len() - i,
        {
            if self.clients[i] == session_id {
                let ghost before = self.clients@;
                let _ = self.clients.remove(i);
                proof {
                    let s = self.clients@;
                    assert forall|a: int, b: int|
                        0 <= a < s.len() && 0 <= b < s.len() && a != b implies s[a] != s[b] by {
                        let oa = if a < i {
                            a
                        } else {
                            a + 1
                        };
                        let ob = if b < i {
                            b
                        } else {
                            b + 1
                        };
                        assert(s[a] == before[oa]);
                        assert(s[b] == before[ob]);
                    }
                    assert forall|x: u64| x != session_id implies (s.contains(x) <==> before.contains(
                        x,
                    )) by {
                        if before.contains(x) {
                            let p = choose|p: int| 0 <= p < before.len() && before[p] == x;
                            assert(p != i);
                            let q = if p < i {
                                p
                            } else {
                                p - 1
                            };
                            assert(s[q] == x);
                        }
                        if s.contains(x) {
                            let q = choose|q: int| 0 <= q < s.len() && s[q] == x;
                            let p = if q < i {
                                q
                            } else {
                                q + 1
                            };
                            assert(before[p] == x);
                        }
                    }
                    assert forall|q: int| 0 <= q < s.len() implies s[q] != session_id by {
                        let p = if q < i {
                            q
                        } else {
                            q + 1
                        };
                        assert(s[q] == before[p]);
                        if p != i {
                            assert(before[p] != before[i as int]);
                        }
                    }
                }
                return;
            }
            i = i + 1;
        }
    }

    /// The sessions that a message for `session_id` goes to: that session
    /// alone if it is live, else none.
    pub fn notify_targets(&self, session_id: u64) -> (r: Vec<u64>)
        ensures
            r@ == delivery_targets(self@, session_id),
    {
        let mut r: Vec<u64> = Vec::new();
        if self.is_live(session_id) {
            r.push(session_id);
        }
        assert(r@ =~= delivery_targets(self@, session_id));
        r
    }

    /// The sessions that a broadcast goes to: every live session.
    pub fn broadcast_targets(&self) -> (r: Vec<u64>)
        ensures
            r@ == self@,
    {
        let mut r: Vec<u64> = Vec::new();
        let mut i: usize = 0;
        while i < self.clients.len()
            invariant
                0 <= i <= self.clients@.len(),
                r@ == self.clients@.take(i as int),
            decreases self.clients@.len() - i,
        {
            r.push(self.clients[i]);
            assert(self.clients@.take(i + 1) =~= self.clients@.take(i as int).push(
                self.clients@[i as int],
            ));
            i = i + 1;
        }
        assert(self.clients@.take(i as int) =~= self.clients@);
        r
    }
}

/// A message for one session goes to that session and to no other.
pub proof fn lemma_delivery_isolated(live: Seq<u64>, session_id: u64, other: u64)
    requires
        other != session_id,
    ensures
        !delivery_targets(live, session_id).contains(other),
        delivery_targets(live, session_id).len() <= 1,
        live.contains(session_id) ==> delivery_targets(live, session_id) == seq![session_id],
{
    if delivery_targets(live, session_id).contains(other) {
        let p = choose|p: int|
            0 <= p < delivery_targets(live, session_id).len() && delivery_targets(
                live,
                session_id,
            )[p] == other;
        assert(p == 0);
    }
}

} // verus!

//! The router registry: a mapping from router id to the handle of a router.
use vstd::prelude::*;
use crate::naming::{no_sep, router_part, local_part, split_at_seperator, is_valid_router_id};

verus! {

/// One registered router: its id and the handle by which the host reaches it.
pub struct RouterSlot {
    pub router_id: String,
    pub handle: u64,
}

/// Why a registration was refused.
#[derive(PartialEq, Eq, Structural, Debug, Clone, Copy)]
pub enum RegisterError {
    /// The router id holds the separator.
    InvalidId,
    /// A router with this id is registered already.
    AlreadyRegistered,
}

/// The ids in `s` are pairwise distinct and hold no separator.
pub open spec fn slots_wf(s: Seq<RouterSlot>) -> bool {
    &&& forall|i: int, j: int|
        0 <= i < s.len() && 0 <= j < s.len() && i != j ==> s[i].router_id@ != s[j].router_id@
    &&& forall|i: int| 0 <= i < s.len() ==> no_sep(#[trigger] s[i].router_id@)
}

/// Some slot of `s` carries the id `k`.
pub open spec fn slots_have(s: Seq<RouterSlot>, k: Seq<char>) -> bool {
    exists|i: int| 0 <= i < s.len() && s[i].router_id@ == k
}

/// The mapping that the slots `s` stand for.
pub open spec fn slots_map(s: Seq<RouterSlot>) -> Map<Seq<char>, u64> {
    Map::new(
        |k: Seq<char>| slots_have(s, k),
        |k: Seq<char>| s[choose|i: int| 0 <= i < s.len() && s[i].router_id@ == k].handle,
    )
}

/// Every key of `m` is a valid router id.
pub open spec fn ids_valid(m: Map<Seq<char>, u64>) -> bool {
    forall|k: Seq<char>| m.contains_key(k) ==> no_sep(k)
}

/// In well-formed slots, the slot that carries an id gives its handle.
pub proof fn lemma_slot_value(s: Seq<RouterSlot>, i: int)
    requires
        slots_wf(s),
        0 <= i < s.len(),
    ensures
        slots_map(s).contains_key(s[i].router_id@),
        slots_map(s)[s[i].router_id@] == s[i].handle,
{
    let k = s[i].router_id@;
    assert(slots_have(s, k));
    let j = choose|j: int| 0 <= j < s.len() && s[j].router_id@ == k;
    assert(i == j);
}

/// The keys of well-formed slots are valid router ids.
pub proof fn lemma_slots_ids_valid(s: Seq<RouterSlot>)
    requires
        slots_wf(s),
    ensures
        ids_valid(slots_map(s)),
{
    assert forall|k: Seq<char>| slots_map(s).contains_key(k) implies no_sep(k) by {
        let i = choose|i: int| 0 <= i < s.len() && s[i].router_id@ == k;
        assert(no_sep(s[i].router_id@));
    }
}

/// The registry of routers. Its model is a map from router id to handle.
pub struct ActorRouterRegistry {
    routers: Vec<RouterSlot>,
}

impl View for ActorRouterRegistry {
    type V = Map<Seq<char>, u64>;

    closed spec fn view(&self) -> Map<Seq<char>, u64> {
        slots_map(self.routers@)
    }
}

impl ActorRouterRegistry {
    /// The registry's internal invariant.
    pub closed spec fn wf(&self) -> bool {
        slots_wf(self.routers@)
    }

    /// An empty registry.
    pub fn new() -> (r: Self)
        ensures
            r.wf(),
            r@ == Map::<Seq<char>, u64>::empty(),
    {
        let r = ActorRouterRegistry { routers: Vec::new() };
        assert(r@ =~= Map::<Seq<char>, u64>::empty());
        r
    }

    /// The index of the slot that carries `router_id`, if any.
    fn position(&self, router_id: &String) -> (r: Option<usize>)
        requires
            self.wf(),
        ensures
            match r {
                Some(i) => i < self.routers@.len() && self.routers@[i as int].router_id@
                    == router_id@,
                None => !slots_have(self.routers@, router_id@),
            },
    {
        let mut i: usize = 0;
        while i < self.routers.len()
            invariant
                0 <= i <= self.routers@.len(),
                forall|j: int| 0 <= j < i ==> self.routers@[j].router_id@ != router_id@,
            decreases self.routers@.len() - i,
        {
            if self.routers[i].router_id == *router_id {
                return Some(i);
            }
            i = i + 1;
        }
        None
    }

    /// Whether a router with this id is registered.
    pub fn contains(&self, router_id: &String) -> (r: bool)
        requires
            self.wf(),
        ensures
            r == self@.contains_key(router_id@),
    {
        self.position(router_id).is_some()
    }

    /// Registers `handle` under `router_id`. Refused when the id holds the
    /// separator, or when a router with that id is registered already; the
    /// registry is then unchanged.
    pub fn register_router(&mut self, router_id: String, handle: u64) -> (r: Result<
        (),
        RegisterError,
    >)
        requires
            old(self).wf(),
        ensures
            final(self).wf(),
            r == Err::<(), RegisterError>(RegisterError::InvalidId) <==> !no_sep(router_id@),
            r == Err::<(), RegisterError>(RegisterError::AlreadyRegistered) <==> no_sep(
                router_id@,
            ) && old(self)@.contains_key(router_id@),
            r is Ok ==> final(self)@ == old(self)@.insert(router_id@, handle),
            r is Err ==> final(self)@ == old(self)@,
            ids_valid(final(self)@),
    {
        proof {
            lemma_slots_ids_valid(self.routers@);
        }
        if !is_valid_router_id(router_id.as_str()) {
            return Err(RegisterError::InvalidId);
        }
        if self.position(&router_id).is_some() {
            return Err(RegisterError::AlreadyRegistered);
        }
        let ghost old_s = self.routers@;
        let ghost k = router_id@;
        self.routers.push(RouterSlot { router_id, handle });
        proof {
            let s = self.routers@;
            assert(slots_wf(s));
            assert forall|q: Seq<char>| #[trigger] slots_map(s).contains_key(q) == slots_map(
                old_s,
            ).insert(k, handle).contains_key(q) by {
                if slots_have(s, q) && q != k {
                    let i = choose|i: int| 0 <= i < s.len() && s[i].router_id@ == q;
                    assert(old_s[i].router_id@ == q);
                }
                if slots_have(old_s, q) {
                    let i = choose|i: int| 0 <= i < old_s.len() && old_s[i].router_id@ == q;
                    assert(s[i].router_id@ == q);
                }
                if q == k {
                    assert(s[old_s.len() as int].router_id@ == k);
                }
            }
            assert forall|q: Seq<char>| #[trigger]
                slots_map(s).contains_key(q) implies slots_map(s)[q] == slots_map(old_s).insert(
                k,
                handle,
            )[q] by {
                let i = choose|i: int| 0 <= i < s.len() && s[i].router_id@ == q;
                lemma_slot_value(s, i);
                if i < old_s.len() {
                    assert(old_s[i] == s[i]);
                    lemma_slot_value(old_s, i);
                }
            }
            assert(slots_map(s) =~= slots_map(old_s).insert(k, handle));
            lemma_slots_ids_valid(s);
        }
        Ok(())
    }

    /// Removes the router registered under `router_id`, if there is one.
    pub fn unregister_router(&mut self, router_id: &String)
        requires
            old(self).wf(),
        ensures
            final(self).wf(),
            final(self)@ == old(self)@.remove(router_id@),
            ids_valid(final(self)@),
    {
        match self.position(router_id) {
            None => {
                assert(self@ =~= self@.remove(router_id@));
            },
            Some(p) => {
                let ghost old_s = self.routers@;
                let ghost k = router_id@;
                let _ = self.routers.remove(p);
                proof {
                    let s = self.routers@;
                    assert forall|i: int| 0 <= i < s.len() implies #[trigger] s[i] == old_s[if i
                        < p {
                        i
                    } else {
                        i + 1
                    }] by {}
                    assert(slots_wf(s)) by {
                        assert forall|i: int, j: int|
                            0 <= i < s.len() && 0 <= j < s.len() && i != j implies s[i].router_id@
                            != s[j].router_id@ by {
                            let oi = if i < p {
                                i
                            } else {
                                i + 1
                            };
                            let oj = if j < p {
                                j
                            } else {
                                j + 1
                            };
                            assert(s[i] == old_s[oi]);
                            assert(s[j] == old_s[oj]);
                        }
                        assert forall|i: int| 0 <= i < s.len() implies no_sep(
                            #[trigger] s[i].router_id@,
                        ) by {
                            let oi = if i < p {
                                i
                            } else {
                                i + 1
                            };
                            assert(s[i] == old_s[oi]);
                        }
                    }
                    assert forall|q: Seq<char>| #[trigger] slots_map(s).contains_key(q)
                        == slots_map(old_s).remove(k).contains_key(q) by {
                        if slots_have(s, q) {
                            let i = choose|i: int| 0 <= i < s.len() && s[i].router_id@ == q;
                            let oi = if i < p {
                                i
                            } else {
                                i + 1
                            };
                            assert(s[i] == old_s[oi]);
                            assert(old_s[oi].router_id@ == q);
                            assert(oi != p);
                        }
                        if slots_have(old_s, q) && q != k {
                            let oi = choose|i: int| 0 <= i < old_s.len() && old_s[i].router_id@ == q;
                            assert(oi != p);
                            let i = if oi < p {
                                oi
                            } else {
                                oi - 1
                            };
                            assert(s[i] == old_s[oi]);
                        }
                    }
                    assert forall|q: Seq<char>| #[trigger]
                        slots_map(s).contains_key(q) implies slots_map(s)[q] == slots_map(
                        old_s,
                    )[q] by {
                        let i = choose|i: int| 0 <= i < s.len() && s[i].router_id@ == q;
                        lemma_slot_value(s, i);
                        let oi = if i < p {
                            i
                        } else {
                            i + 1
                        };
                        assert(s[i] == old_s[oi]);
                        lemma_slot_value(old_s, oi);
                    }
                    assert(slots_map(s) =~= slots_map(old_s).remove(k));
                }
            },
        }
        proof {
            lemma_slots_ids_valid(self.routers@);
        }
    }

    /// Resolves a qualified name: the handle of the router that its router id
    /// names, with the local name to hand that router. Where the name holds
    /// no separator, the whole name is both router id and local name.
    pub fn get_router(&self, action: String) -> (r: Option<(u64, String)>)
        requires
            self.wf(),
        ensures
            r is Some <==> self@.contains_key(router_part(action@)),
            r matches Some((h, l)) ==> h == self@[router_part(action@)] && l@ == local_part(
                action@,
            ),
    {
        let (router_id, rest) = split_at_seperator(action);
        let local = match rest {
            Some(l) => l,
            None => router_id.clone(),
        };
        match self.position(&router_id) {
            Some(p) => {
                proof {
                    lemma_slot_value(self.routers@, p as int);
                }
                Some((self.routers[p].handle, local))
            },
            None => None,
        }
    }
}

} // verus!

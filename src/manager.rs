//! The router service manager: the registry together with the three
//! aggregate listings, kept in step on registration and removal.
use vstd::prelude::*;
use crate::naming::{no_sep, qualified, router_part, lemma_split_qualified};
use crate::registry::{ActorRouterRegistry, RegisterError, ids_valid};
use crate::router::SystemRouter;
use crate::lists::{
    Keyed, Tool, Resource, Prompt, ListToolsActor, ListResourcesActor, ListPromptsActor,
    appended_qualified, kept_after_unregister,
};

verus! {

/// Every item of `items` belongs, by its router id, to a registered router.
pub open spec fn listing_owned<T: Keyed>(items: Seq<T>, routers: Map<Seq<char>, u64>) -> bool {
    forall|k: int| 0 <= k < items.len() ==> routers.contains_key(router_part(#[trigger] items[k].key_view()))
}

/// The keys of `items` are pairwise distinct.
pub open spec fn distinct_keys<T: Keyed>(items: Seq<T>) -> bool {
    forall|i: int, j: int|
        0 <= i < items.len() && 0 <= j < items.len() && i != j ==> items[i].key_view()
            != items[j].key_view()
}

/// `items` holds exactly one item under the key `key`.
pub open spec fn listed_once<T: Keyed>(items: Seq<T>, key: Seq<char>) -> bool {
    exists|k: int|
        0 <= k < items.len() && items[k].key_view() == key && forall|m: int|
            0 <= m < items.len() && #[trigger] items[m].key_view() == key ==> m == k
}

/// `items` holds no item under the key `key`.
pub open spec fn not_listed<T: Keyed>(items: Seq<T>, key: Seq<char>) -> bool {
    forall|k: int| 0 <= k < items.len() ==> #[trigger] items[k].key_view() != key
}

/// Registering a router whose listing has distinct local names puts each of
/// them in the aggregate listing exactly once, under `<router id>_<local>`.
pub proof fn lemma_register_lists_once<T: Keyed>(
    before: Seq<T>,
    routers: Map<Seq<char>, u64>,
    router_id: Seq<char>,
    added: Seq<T>,
    after: Seq<T>,
    i: int,
)
    requires
        listing_owned(before, routers),
        !routers.contains_key(router_id),
        no_sep(router_id),
        distinct_keys(added),
        appended_qualified(before, router_id, added, after),
        0 <= i < added.len(),
    ensures
        listed_once(after, qualified(router_id, added[i].key_view())),
{
    let key = qualified(router_id, added[i].key_view());
    let n = before.len();
    lemma_split_qualified(router_id, added[i].key_view());
    assert(after[n + i].key_view() == key);
    assert forall|m: int| 0 <= m < after.len() && #[trigger] after[m].key_view() == key implies m
        == n + i by {
        if m < n {
            assert(after[m] == before[m]);
            assert(routers.contains_key(router_part(before[m].key_view())));
        } else {
            let j = m - n;
            assert(after[n + j].key_view() == qualified(router_id, added[j].key_view()));
            lemma_split_qualified(router_id, added[j].key_view());
            if j != i {
                assert(added[j].key_view() != added[i].key_view());
            }
        }
    }
}

/// After every item of a router leaves a listing, none is left under any
/// qualified name of that router.
pub proof fn lemma_unregister_unlists<T: Keyed>(
    before: Seq<T>,
    router_id: Seq<char>,
    local: Seq<char>,
)
    requires
        no_sep(router_id),
    ensures
        not_listed(before.filter(kept_after_unregister(router_id)), qualified(router_id, local)),
{
    let after = before.filter(kept_after_unregister::<T>(router_id));
    lemma_split_qualified(router_id, local);
    assert forall|k: int| 0 <= k < after.len() implies #[trigger] after[k].key_view() != qualified(
        router_id,
        local,
    ) by {
        before.lemma_filter_pred(kept_after_unregister::<T>(router_id), k);
    }
}

/// Registration keeps every listed item owned by a registered router.
proof fn lemma_owned_after_add<T: Keyed>(
    before: Seq<T>,
    routers: Map<Seq<char>, u64>,
    router_id: Seq<char>,
    handle: u64,
    added: Seq<T>,
    after: Seq<T>,
)
    requires
        listing_owned(before, routers),
        no_sep(router_id),
        appended_qualified(before, router_id, added, after),
    ensures
        listing_owned(after, routers.insert(router_id, handle)),
{
    let n = before.len();
    assert forall|k: int| 0 <= k < after.len() implies routers.insert(
        router_id,
        handle,
    ).contains_key(router_part(#[trigger] after[k].key_view())) by {
        if k < n {
            assert(after[k] == before[k]);
        } else {
            let j = k - n;
            assert(after[n + j].key_view() == qualified(router_id, added[j].key_view()));
            lemma_split_qualified(router_id, added[j].key_view());
        }
    }
}

/// Removal of a router keeps every listed item owned by a registered router.
proof fn lemma_owned_after_remove<T: Keyed>(
    before: Seq<T>,
    routers: Map<Seq<char>, u64>,
    router_id: Seq<char>,
)
    requires
        listing_owned(before, routers),
    ensures
        listing_owned(before.filter(kept_after_unregister(router_id)), routers.remove(router_id)),
{
    let pred = kept_after_unregister::<T>(router_id);
    let after = before.filter(pred);
    assert forall|k: int| 0 <= k < after.len() implies routers.remove(router_id).contains_key(
        router_part(#[trigger] after[k].key_view()),
    ) by {
        before.lemma_filter_pred(pred, k);
        before.lemma_filter_contains_rev(pred, after[k]);
        after.lemma_filter_len(pred);
        assert(after.contains(after[k]));
        let j = choose|j: int| 0 <= j < before.len() && before[j] == after[k];
        assert(routers.contains_key(router_part(before[j].key_view())));
    }
}

/// Where a registry keeps its routers.
#[derive(PartialEq, Eq, Structural, Debug, Clone, Copy)]
pub enum RegistryType {
    Native,
    Wasi,
}

/// The registry and the three aggregate listings.
pub struct RouterServiceManager {
    registry: ActorRouterRegistry,
    list_tools: ListToolsActor,
    list_resources: ListResourcesActor,
    list_prompts: ListPromptsActor,
}

impl RouterServiceManager {
    /// The registered routers: router id to handle.
    pub closed spec fn routers(&self) -> Map<Seq<char>, u64> {
        self.registry@
    }

    /// The aggregate listing of tools.
    pub closed spec fn tools(&self) -> Seq<Tool> {
        self.list_tools.store@
    }

    /// The aggregate listing of resources.
    pub closed spec fn resources(&self) -> Seq<Resource> {
        self.list_resources.store@
    }

    /// The aggregate listing of prompts.
    pub closed spec fn prompts(&self) -> Seq<Prompt> {
        self.list_prompts.store@
    }

    /// The manager's invariant: the registry is well formed and every listed
    /// item belongs to a registered router.
    pub closed spec fn wf(&self) -> bool {
        &&& self.registry.wf()
        &&& ids_valid(self.registry@)
        &&& listing_owned(self.tools(), self.routers())
        &&& listing_owned(self.resources(), self.routers())
        &&& listing_owned(self.prompts(), self.routers())
    }

    /// The invariant's visible part: every router id is valid and every listed
    /// item belongs to a registered router.
    pub proof fn lemma_wf_owned(&self)
        requires
            self.wf(),
        ensures
            ids_valid(self.routers()),
            listing_owned(self.tools(), self.routers()),
            listing_owned(self.resources(), self.routers()),
            listing_owned(self.prompts(), self.routers()),
    {
    }

    /// A manager with no router and empty listings.
    pub fn new() -> (r: Self)
        ensures
            r.wf(),
            r.routers() == Map::<Seq<char>, u64>::empty(),
            r.tools() == Seq::<Tool>::empty(),
            r.resources() == Seq::<Resource>::empty(),
            r.prompts() == Seq::<Prompt>::empty(),
    {
        let r = RouterServiceManager {
            registry: ActorRouterRegistry::new(),
            list_tools: ListToolsActor::new(),
            list_resources: ListResourcesActor::new(),
            list_prompts: ListPromptsActor::new(),
        };
        r
    }

    /// A manager with the built-in `system` router registered under
    /// `system_handle`, and its listings in the aggregate listings.
    pub fn default(system_handle: u64) -> (r: Self)
        ensures
            r.wf(),
            r.routers() == Map::<Seq<char>, u64>::empty().insert("system"@, system_handle),
            r.tools().len() == 0,
            r.prompts().len() == 0,
            r.resources().len() == 1,
            r.resources()[0].uri@ == qualified("system"@, "all"@),
    {
        let mut manager = RouterServiceManager::new();
        let system = SystemRouter::new();
        let tools = system.list_tools();
        let resources = system.list_resources();
        let prompts = system.list_prompts();
        let name = system.name();
        proof {
            reveal_strlit("system");
            assert(no_sep("system"@));
        }
        let r = manager.register_router(name, system_handle, tools, resources, prompts);
        proof {
            assert(!Map::<Seq<char>, u64>::empty().contains_key("system"@));
            match r {
                Ok(()) => {},
                Err(RegisterError::InvalidId) => {},
                Err(RegisterError::AlreadyRegistered) => {},
            }
        }
        manager
    }

    /// Registers the router `router_id` under `handle` and appends its
    /// listings to the aggregate listings, each item under its qualified
    /// name. Refused, with nothing changed, when the id holds the separator
    /// or is registered already.
    pub fn register_router(
        &mut self,
        router_id: String,
        handle: u64,
        tools: Vec<Tool>,
        resources: Vec<Resource>,
        prompts: Vec<Prompt>,
    ) -> (r: Result<(), RegisterError>)
        requires
            old(self).wf(),
        ensures
            final(self).wf(),
            r == Err::<(), RegisterError>(RegisterError::InvalidId) <==> !no_sep(router_id@),
            r == Err::<(), RegisterError>(RegisterError::AlreadyRegistered) <==> no_sep(
                router_id@,
            ) && old(self).routers().contains_key(router_id@),
            r is Ok ==> {
                &&& final(self).routers() == old(self).routers().insert(router_id@, handle)
                &&& appended_qualified(old(self).tools(), router_id@, tools@, final(self).tools())
                &&& appended_qualified(
                    old(self).resources(),
                    router_id@,
                    resources@,
                    final(self).resources(),
                )
                &&& appended_qualified(
                    old(self).prompts(),
                    router_id@,
                    prompts@,
                    final(self).prompts(),
                )
            },
            r is Err ==> {
                &&& final(self).routers() == old(self).routers()
                &&& final(self).tools() == old(self).tools()
                &&& final(self).resources() == old(self).resources()
                &&& final(self).prompts() == old(self).prompts()
            },
    {
        let ghost rid = router_id@;
        let ghost old_routers = self.registry@;
        let ghost old_tools = self.tools();
        let ghost old_resources = self.resources();
        let ghost old_prompts = self.prompts();
        let name = router_id.clone();
        let reg = self.registry.register_router(router_id, handle);
        match reg {
            Err(e) => Err(e),
            Ok(()) => {
                self.list_tools.store.add(name.as_str(), tools);
                self.list_resources.store.add(name.as_str(), resources);
                self.list_prompts.store.add(name.as_str(), prompts);
                proof {
                    lemma_owned_after_add(
                        old_tools,
                        old_routers,
                        rid,
                        handle,
                        tools@,
                        self.tools(),
                    );
                    lemma_owned_after_add(
                        old_resources,
                        old_routers,
                        rid,
                        handle,
                        resources@,
                        self.resources(),
                    );
                    lemma_owned_after_add(
                        old_prompts,
                        old_routers,
                        rid,
                        handle,
                        prompts@,
                        self.prompts(),
                    );
                }
                Ok(())
            },
        }
    }

    /// Removes the router `router_id` and every listed item of it. Removing
    /// a router that is not registered changes nothing.
    pub fn unregister_router(&mut self, router_id: &String)
        requires
            old(self).wf(),
        ensures
            final(self).wf(),
            final(self).routers() == old(self).routers().remove(router_id@),
            final(self).tools() == old(self).tools().filter(kept_after_unregister(router_id@)),
            final(self).resources() == old(self).resources().filter(
                kept_after_unregister(router_id@),
            ),
            final(self).prompts() == old(self).prompts().filter(kept_after_unregister(router_id@)),
    {
        let ghost old_routers = self.registry@;
        let ghost old_tools = self.tools();
        let ghost old_resources = self.resources();
        let ghost old_prompts = self.prompts();
        self.registry.unregister_router(router_id);
        self.list_tools.store.remove_router(router_id);
        self.list_resources.store.remove_router(router_id);
        self.list_prompts.store.remove_router(router_id);
        proof {
            lemma_owned_after_remove(old_tools, old_routers, router_id@);
            lemma_owned_after_remove(old_resources, old_routers, router_id@);
            lemma_owned_after_remove(old_prompts, old_routers, router_id@);
        }
    }

    /// Resolves a qualified name to the handle of its router and the local
    /// name to hand that router.
    pub fn get_router(&self, action: String) -> (r: Option<(u64, String)>)
        requires
            self.wf(),
        ensures
            r is Some <==> self.routers().contains_key(router_part(action@)),
            r matches Some((h, l)) ==> h == self.routers()[router_part(action@)] && l@
                == crate::naming::local_part(action@),
    {
        self.registry.get_router(action)
    }

    /// The registry.
    pub fn get_registry(&self) -> (r: &ActorRouterRegistry)
        requires
            self.wf(),
        ensures
            r@ == self.routers(),
            r.wf(),
    {
        &self.registry
    }

    /// The aggregate listing of tools.
    pub fn get_list_tools(&self) -> (r: &ListToolsActor)
        ensures
            r.store@ == self.tools(),
    {
        &self.list_tools
    }

    /// The aggregate listing of resources.
    pub fn get_list_resources(&self) -> (r: &ListResourcesActor)
        ensures
            r.store@ == self.resources(),
    {
        &self.list_resources
    }

    /// The aggregate listing of prompts.
    pub fn get_list_prompts(&self) -> (r: &ListPromptsActor)
        ensures
            r.store@ == self.prompts(),
    {
        &self.list_prompts
    }
}

} // verus!

//! The aggregate listings of tools, resources and prompts over all routers.
//!
//! Each store keeps its items in insertion order. Items enter under their
//! qualified name (`<router id>_<local name>`) and leave by that name.
use vstd::prelude::*;
use crate::naming::{qualified, router_part, qualify, split_at_seperator};
use crate::content::Annotations;

verus! {

/// An item of a listing, known by one string: a tool's or a prompt's name,
/// a resource's URI.
pub trait Keyed: Sized {
    /// The string that the item is known by.
    spec fn key_view(&self) -> Seq<char>;

    /// `self` and `other` agree on everything but the key.
    spec fn same_but_key(&self, other: &Self) -> bool;

    fn key(&self) -> (r: &String)
        ensures
            r@ == self.key_view(),
    ;

    /// The item with its key replaced by `key`.
    fn rekey(self, key: String) -> (r: Self)
        ensures
            r.key_view() == key@,
            r.same_but_key(&self),
    ;
}

/// A tool that a router offers. Its input schema is JSON text.
pub struct Tool {
    pub name: String,
    pub description: String,
    pub input_schema: String,
}

impl Keyed for Tool {
    open spec fn key_view(&self) -> Seq<char> {
        self.name@
    }

    open spec fn same_but_key(&self, other: &Self) -> bool {
        self.description == other.description && self.input_schema == other.input_schema
    }

    fn key(&self) -> (r: &String) {
        &self.name
    }

    fn rekey(self, key: String) -> (r: Self) {
        Tool { name: key, description: self.description, input_schema: self.input_schema }
    }
}

/// A resource that a router offers.
pub struct Resource {
    pub uri: String,
    pub name: String,
    pub description: Option<String>,
    pub mime_type: String,
    pub annotations: Option<Annotations>,
}

impl Keyed for Resource {
    open spec fn key_view(&self) -> Seq<char> {
        self.uri@
    }

    open spec fn same_but_key(&self, other: &Self) -> bool {
        &&& self.name == other.name
        &&& self.description == other.description
        &&& self.mime_type == other.mime_type
        &&& self.annotations == other.annotations
    }

    fn key(&self) -> (r: &String) {
        &self.uri
    }

    fn rekey(self, key: String) -> (r: Self) {
        Resource {
            uri: key,
            name: self.name,
            description: self.description,
            mime_type: self.mime_type,
            annotations: self.annotations,
        }
    }
}

/// One argument of a prompt.
pub struct PromptArgument {
    pub name: String,
    pub description: Option<String>,
    pub required: Option<bool>,
}

/// A prompt that a router offers.
pub struct Prompt {
    pub name: String,
    pub description: Option<String>,
    pub arguments: Option<Vec<PromptArgument>>,
}

impl Keyed for Prompt {
    open spec fn key_view(&self) -> Seq<char> {
        self.name@
    }

    open spec fn same_but_key(&self, other: &Self) -> bool {
        self.description == other.description && self.arguments == other.arguments
    }

    fn key(&self) -> (r: &String) {
        &self.name
    }

    fn rekey(self, key: String) -> (r: Self) {
        Prompt { name: key, description: self.description, arguments: self.arguments }
    }
}

/// `e` is one of `items` of router `router_id`, by qualified name.
pub open spec fn named_among<T: Keyed>(e: T, router_id: Seq<char>, items: Seq<T>) -> bool {
    exists|j: int| 0 <= j < items.len() && e.key_view() == qualified(router_id, items[j].key_view())
}

/// What survives removing the items `items` of router `router_id`.
pub open spec fn kept_after_remove<T: Keyed>(router_id: Seq<char>, items: Seq<T>) -> spec_fn(
    T,
) -> bool {
    |e: T| !named_among(e, router_id, items)
}

/// What survives removing every item of router `router_id`.
pub open spec fn kept_after_unregister<T: Keyed>(router_id: Seq<char>) -> spec_fn(T) -> bool {
    |e: T| router_part(e.key_view()) != router_id
}

/// `after` is `before` followed by `added`, each of `added` under its
/// qualified name in router `router_id`.
pub open spec fn appended_qualified<T: Keyed>(
    before: Seq<T>,
    router_id: Seq<char>,
    added: Seq<T>,
    after: Seq<T>,
) -> bool {
    &&& after.len() == before.len() + added.len()
    &&& forall|i: int| 0 <= i < before.len() ==> after[i] == before[i]
    &&& forall|i: int|
        0 <= i < added.len() ==> {
            &&& (#[trigger] after[before.len() + i]).key_view() == qualified(
                router_id,
                added[i].key_view(),
            )
            &&& after[before.len() + i].same_but_key(&added[i])
        }
}

/// A listing store: an ordered sequence of items.
pub struct ListStore<T> {
    items: Vec<T>,
}

impl<T> View for ListStore<T> {
    type V = Seq<T>;

    closed spec fn view(&self) -> Seq<T> {
        self.items@
    }
}

impl<T: Keyed> ListStore<T> {
    /// An empty store.
    pub fn new() -> (r: Self)
        ensures
            r@ == Seq::<T>::empty(),
    {
        ListStore { items: Vec::new() }
    }

    /// The items, in order.
    pub fn items(&self) -> (r: &Vec<T>)
        ensures
            r@ == self@,
    {
        &self.items
    }

    /// Appends `new_items` as they are.
    pub fn extend(&mut self, new_items: Vec<T>)
        ensures
            final(self)@ == old(self)@ + new_items@,
    {
        let mut src = new_items;
        self.items.append(&mut src);
    }

    /// Appends the items of router `router_id`, each under its qualified name,
    /// in the order given.
    pub fn add(&mut self, router_id: &str, new_items: Vec<T>)
        ensures
            appended_qualified(old(self)@, router_id@, new_items@, final(self)@),
    {
        let ghost before = self.items@;
        let ghost added = new_items@;
        let mut src = new_items;
        let n = src.len();
        let mut i: usize = 0;
        while i < n
            invariant
                n == added.len(),
                0 <= i <= n,
                src@ == added.skip(i as int),
                self.items@.len() == before.len() + i,
                forall|k: int| 0 <= k < before.len() ==> self.items@[k] == before[k],
                forall|k: int|
                    0 <= k < i ==> {
                        &&& (#[trigger] self.items@[before.len() + k]).key_view() == qualified(
                            router_id@,
                            added[k].key_view(),
                        )
                        &&& self.items@[before.len() + k].same_but_key(&added[k])
                    },
            decreases n - i,
        {
            let item = src.remove(0);
            assert(item == added[i as int]);
            let name = qualify(router_id, item.key().as_str());
            let renamed = item.rekey(name);
            self.items.push(renamed);
            assert(src@ =~= added.skip(i + 1));
            i = i + 1;
        }
    }

    /// Whether `e` is one of `items` of router `router_id`, by qualified name.
    fn is_named_among(e: &T, router_id: &str, items: &Vec<T>) -> (r: bool)
        ensures
            r == named_among(*e, router_id@, items@),
    {
        let mut j: usize = 0;
        while j < items.len()
            invariant
                0 <= j <= items@.len(),
                forall|k: int|
                    0 <= k < j ==> e.key_view() != qualified(router_id@, items@[k].key_view()),
            decreases items@.len() - j,
        {
            let name = qualify(router_id, items[j].key().as_str());
            if *e.key() == name {
                return true;
            }
            j = j + 1;
        }
        false
    }

    /// Removes the items of router `router_id` named in `items`, by
    /// qualified name. The other items keep their order.
    pub fn remove(&mut self, router_id: &str, items: &Vec<T>)
        ensures
            final(self)@ == old(self)@.filter(kept_after_remove(router_id@, items@)),
    {
        let ghost before = self.items@;
        let ghost keep = kept_after_remove::<T>(router_id@, items@);
        let mut src: Vec<T> = Vec::new();
        std::mem::swap(&mut self.items, &mut src);
        let n = src.len();
        let mut i: usize = 0;
        assert(before.take(0) =~= Seq::<T>::empty());
        proof {
            reveal(Seq::filter);
        }
        while i < n
            invariant
                n == before.len(),
                0 <= i <= n,
                src@ == before.skip(i as int),
                self.items@ == before.take(i as int).filter(keep),
                keep == kept_after_remove::<T>(router_id@, items@),
            decreases n - i,
        {
            let item = src.remove(0);
            assert(item == before[i as int]);
            let drop = Self::is_named_among(&item, router_id, items);
            proof {
                let t = before.take(i + 1);
                reveal(Seq::filter);
                assert(t.drop_last() =~= before.take(i as int));
                assert(t.last() == item);
                assert(t.filter(keep) == if keep(item) {
                    before.take(i as int).filter(keep).push(item)
                } else {
                    before.take(i as int).filter(keep)
                });
            }
            if !drop {
                self.items.push(item);
            }
            assert(src@ =~= before.skip(i + 1));
            i = i + 1;
        }
        assert(before.take(n as int) =~= before);
    }

    /// Removes every item of router `router_id`: those whose qualified name
    /// has that router id. The other items keep their order.
    pub fn remove_router(&mut self, router_id: &String)
        ensures
            final(self)@ == old(self)@.filter(kept_after_unregister(router_id@)),
    {
        let ghost before = self.items@;
        let ghost keep = kept_after_unregister::<T>(router_id@);
        let mut src: Vec<T> = Vec::new();
        std::mem::swap(&mut self.items, &mut src);
        let n = src.len();
        let mut i: usize = 0;
        assert(before.take(0) =~= Seq::<T>::empty());
        proof {
            reveal(Seq::filter);
        }
        while i < n
            invariant
                n == before.len(),
                0 <= i <= n,
                src@ == before.skip(i as int),
                self.items@ == before.take(i as int).filter(keep),
                keep == kept_after_unregister::<T>(router_id@),
            decreases n - i,
        {
            let item = src.remove(0);
            assert(item == before[i as int]);
            let (owner, _) = split_at_seperator(item.key().clone());
            proof {
                let t = before.take(i + 1);
                reveal(Seq::filter);
                assert(t.drop_last() =~= before.take(i as int));
                assert(t.last() == item);
                assert(t.filter(keep) == if keep(item) {
                    before.take(i as int).filter(keep).push(item)
                } else {
                    before.take(i as int).filter(keep)
                });
            }
            if owner != *router_id {
                self.items.push(item);
            }
            assert(src@ =~= before.skip(i + 1));
            i = i + 1;
        }
        assert(before.take(n as int) =~= before);
    }
}

/// The aggregate listing of tools.
pub struct ListToolsActor {
    pub store: ListStore<Tool>,
}

impl ListToolsActor {
    pub fn new() -> (r: Self)
        ensures
            r.store@ == Seq::<Tool>::empty(),
    {
        ListToolsActor { store: ListStore::new() }
    }

    /// The tools, in order.
    pub fn list_tools(&self) -> (r: &Vec<Tool>)
        ensures
            r@ == self.store@,
    {
        self.store.items()
    }

    /// Appends tools as they are.
    pub fn add_tools(&mut self, new_tools: Vec<Tool>)
        ensures
            final(self).store@ == old(self).store@ + new_tools@,
    {
        self.store.extend(new_tools);
    }

    /// Removes the tools of router `router_id` named in `tools`.
    pub fn remove_tools(&mut self, router_id: &str, tools: &Vec<Tool>)
        ensures
            final(self).store@ == old(self).store@.filter(kept_after_remove(router_id@, tools@)),
    {
        self.store.remove(router_id, tools);
    }
}

/// The aggregate listing of resources.
pub struct ListResourcesActor {
    pub store: ListStore<Resource>,
}

impl ListResourcesActor {
    pub fn new() -> (r: Self)
        ensures
            r.store@ == Seq::<Resource>::empty(),
    {
        ListResourcesActor { store: ListStore::new() }
    }

    /// The resources, in order.
    pub fn list_resources(&self) -> (r: &Vec<Resource>)
        ensures
            r@ == self.store@,
    {
        self.store.items()
    }

    /// Appends resources as they are.
    pub fn add_resources(&mut self, new_resources: Vec<Resource>)
        ensures
            final(self).store@ == old(self).store@ + new_resources@,
    {
        self.store.extend(new_resources);
    }

    /// Removes the resources of router `router_id` named in `resources`.
    pub fn remove_resources(&mut self, router_id: &str, resources: &Vec<Resource>)
        ensures
            final(self).store@ == old(self).store@.filter(
                kept_after_remove(router_id@, resources@),
            ),
    {
        self.store.remove(router_id, resources);
    }
}

/// The aggregate listing of prompts.
pub struct ListPromptsActor {
    pub store: ListStore<Prompt>,
}

impl ListPromptsActor {
    pub fn new() -> (r: Self)
        ensures
            r.store@ == Seq::<Prompt>::empty(),
    {
        ListPromptsActor { store: ListStore::new() }
    }

    /// The prompts, in order.
    pub fn list_prompts(&self) -> (r: &Vec<Prompt>)
        ensures
            r@ == self.store@,
    {
        self.store.items()
    }

    /// Appends prompts as they are.
    pub fn add_prompts(&mut self, new_prompts: Vec<Prompt>)
        ensures
            final(self).store@ == old(self).store@ + new_prompts@,
    {
        self.store.extend(new_prompts);
    }

    /// Removes the prompts of router `router_id` named in `prompts`.
    pub fn remove_prompts(&mut self, router_id: &str, prompts: &Vec<Prompt>)
        ensures
            final(self).store@ == old(self).store@.filter(kept_after_remove(router_id@, prompts@)),
    {
        self.store.remove(router_id, prompts);
    }
}

} // verus!

use vstd::prelude::*;

use crate::error::Error;
use crate::table::KeyedTable;
use crate::text::{insert_sorted, owned, str_equal, strictly_sorted, views};
use crate::tool::ToolSpec;

verus! {

/// Tools by id, each with what it is. `T` is whatever runs a tool.
#[derive(Debug)]
pub struct ToolRegistry<T> {
    tools: KeyedTable<(ToolSpec, T)>,
}

/// The ids among `ids` of the tools of `category`, in order.
pub open spec fn ids_in_category<T>(ids: Seq<Seq<char>>, m: Map<Seq<char>, (ToolSpec, T)>, category: Seq<char>) -> Seq<Seq<char>>
    decreases ids.len(),
{
    if ids.len() == 0 {
        Seq::empty()
    } else {
        let prev = ids_in_category(ids.drop_last(), m, category);
        if m[ids.last()].0.category@ == category {
            prev.push(ids.last())
        } else {
            prev
        }
    }
}

/// The category of some registered tool.
pub open spec fn is_category<T>(m: Map<Seq<char>, (ToolSpec, T)>, category: Seq<char>) -> bool {
    exists|k: Seq<char>| #[trigger] m.contains_key(k) && m[k].0.category@ == category
}

/// A description and a copy of it agree.
pub open spec fn same_spec(a: ToolSpec, b: ToolSpec) -> bool {
    &&& a.id == b.id
    &&& a.name == b.name
    &&& a.description == b.description
    &&& a.category == b.category
    &&& a.parameters@ == b.parameters@
}

impl<T> ToolRegistry<T> {
    /// Well-formed: each tool is registered under its own id.
    pub closed spec fn wf(&self) -> bool {
        &&& self.tools.wf()
        &&& forall|k: Seq<char>| #[trigger] self.tools.map().contains_key(k) ==> self.tools.map()[k].0.id@ == k
    }

    /// The tools by id, each with its description.
    pub closed spec fn map(&self) -> Map<Seq<char>, (ToolSpec, T)> {
        self.tools.map()
    }

    /// The ids in registration order.
    pub closed spec fn ids(&self) -> Seq<Seq<char>> {
        self.tools.keys()
    }

    /// The ids are those of the map, each once, and each tool is under its id.
    pub proof fn lemma_ids(&self)
        requires
            self.wf(),
        ensures
            forall|k: Seq<char>| #[trigger] self.map().contains_key(k) <==> self.ids().contains(k),
            self.ids().no_duplicates(),
            forall|k: Seq<char>| #[trigger] self.map().contains_key(k) ==> self.map()[k].0.id@ == k,
            self.map().dom().finite(),
            self.map().len() == self.ids().len(),
    {
        self.tools.lemma_view();
        crate::table::lemma_map_len(self.tools.entries());
        let ks = self.ids();
        assert forall|i: int, j: int| 0 <= i < ks.len() && 0 <= j < ks.len() && i != j implies ks[i] != ks[j] by {
            assert(ks[i] == self.tools.entries()[i].0@);
            assert(ks[j] == self.tools.entries()[j].0@);
        }
    }

    pub fn new() -> (r: Self)
        ensures
            r.wf(),
            r.map() == Map::<Seq<char>, (ToolSpec, T)>::empty(),
            r.ids() == Seq::<Seq<char>>::empty(),
    {
        ToolRegistry { tools: KeyedTable::new() }
    }

    /// Registers a tool under the id its description gives; a tool already
    /// registered under that id is replaced.
    pub fn register(&mut self, spec: ToolSpec, tool: T)
        requires
            old(self).wf(),
        ensures
            final(self).wf(),
            final(self).map() == old(self).map().insert(spec.id@, (spec, tool)),
            old(self).map().contains_key(spec.id@) ==> final(self).ids() == old(self).ids(),
            !old(self).map().contains_key(spec.id@) ==> final(self).ids() == old(self).ids().push(spec.id@),
    {
        let id = spec.id.clone();
        self.tools.set(id, (spec, tool));
    }

    /// The tool registered under `id`.
    pub fn get(&self, id: &str) -> (r: Option<&T>)
        requires
            self.wf(),
        ensures
            match r {
                Some(t) => self.map().contains_key(id@) && self.map()[id@].1 == *t,
                None => !self.map().contains_key(id@),
            },
    {
        match self.tools.get(id) {
            Some(entry) => Some(&entry.1),
            None => None,
        }
    }

    /// The description of the tool registered under `id`.
    pub fn spec(&self, id: &str) -> (r: Option<&ToolSpec>)
        requires
            self.wf(),
        ensures
            match r {
                Some(s) => self.map().contains_key(id@) && self.map()[id@].0 == *s,
                None => !self.map().contains_key(id@),
            },
    {
        match self.tools.get(id) {
            Some(entry) => Some(&entry.0),
            None => None,
        }
    }

    /// The tool to run for `id`, or the error that no tool has that id.
    pub fn find(&self, id: &str) -> (r: Result<&T, Error>)
        requires
            self.wf(),
        ensures
            match r {
                Ok(t) => self.map().contains_key(id@) && self.map()[id@].1 == *t,
                Err(e) => !self.map().contains_key(id@) && (e matches Error::ToolNotFound(s) && s@ == id@),
            },
    {
        match self.get(id) {
            Some(t) => Ok(t),
            None => Err(Error::ToolNotFound(owned(id))),
        }
    }

    pub fn contains(&self, id: &str) -> (r: bool)
        requires
            self.wf(),
        ensures
            r == self.map().contains_key(id@),
    {
        self.tools.contains(id)
    }

    /// Removes the tool registered under `id` and returns it.
    pub fn remove(&mut self, id: &str) -> (r: Option<T>)
        requires
            old(self).wf(),
        ensures
            final(self).wf(),
            final(self).map() == old(self).map().remove(id@),
            match r {
                Some(t) => old(self).map().contains_key(id@) && old(self).map()[id@].1 == t,
                None => !old(self).map().contains_key(id@),
            },
    {
        match self.tools.remove(id) {
            Some(entry) => Some(entry.1),
            None => None,
        }
    }

    /// The ids of all tools, in registration order.
    pub fn list(&self) -> (r: Vec<String>)
        requires
            self.wf(),
        ensures
            views(r@) == self.ids(),
    {
        self.tools.key_list()
    }

    /// The ids of the tools of `category`, in registration order.
    pub fn list_by_category(&self, category: &str) -> (r: Vec<String>)
        requires
            self.wf(),
        ensures
            views(r@) == ids_in_category(self.ids(), self.map(), category@),
    {
        proof {
            self.tools.lemma_view();
        }
        let entries = self.tools.entry_list();
        let mut out: Vec<String> = Vec::new();
        let mut i: usize = 0;
        while i < entries.len()
            invariant
                i <= entries@.len(),
                entries@ == self.tools.entries(),
                self.ids().len() == entries@.len(),
                forall|j: int| 0 <= j < entries@.len() ==> #[trigger] self.ids()[j] == entries@[j].0@,
                forall|j: int| 0 <= j < entries@.len() ==> #[trigger] self.map()[entries@[j].0@] == entries@[j].1,
                views(out@) == ids_in_category(self.ids().take(i as int), self.map(), category@),
            decreases entries@.len() - i,
        {
            proof {
                assert(self.ids().take(i + 1).drop_last() =~= self.ids().take(i as int));
                assert(self.ids().take(i + 1).last() == entries@[i as int].0@);
                assert(self.map()[entries@[i as int].0@] == entries@[i as int].1);
            }
            if str_equal(entries[i].1.0.category.as_str(), category) {
                let ghost prev = out@;
                let id = entries[i].0.clone();
                out.push(id);
                proof {
                    assert(views(out@) =~= views(prev).push(id@));
                }
            }
            i = i + 1;
        }
        proof {
            assert(self.ids().take(entries@.len() as int) =~= self.ids());
        }
        out
    }

    /// The categories of the tools, sorted, each once.
    pub fn categories(&self) -> (r: Vec<String>)
        requires
            self.wf(),
        ensures
            strictly_sorted(views(r@)),
            forall|c: Seq<char>| #[trigger] views(r@).contains(c) <==> is_category(self.map(), c),
    {
        proof {
            self.tools.lemma_view();
        }
        let entries = self.tools.entry_list();
        proof {
            assert forall|j: int| 0 <= j < entries@.len() implies self.map().contains_key(#[trigger] entries@[j].0@) by {
                assert(self.ids()[j] == entries@[j].0@);
            }
            assert forall|k: Seq<char>| #[trigger] self.map().contains_key(k) implies exists|j: int| 0 <= j < entries@.len() && entries@[j].0@ == k by {
                let j = choose|j: int| 0 <= j < self.ids().len() && self.ids()[j] == k;
                assert(entries@[j].0@ == self.ids()[j]);
            }
        }
        let mut out: Vec<String> = Vec::new();
        let mut i: usize = 0;
        while i < entries.len()
            invariant
                i <= entries@.len(),
                entries@ == self.tools.entries(),
                forall|j: int| 0 <= j < entries@.len() ==> #[trigger] self.map()[entries@[j].0@] == entries@[j].1,
                forall|j: int| 0 <= j < entries@.len() ==> self.map().contains_key(#[trigger] entries@[j].0@),
                forall|k: Seq<char>| #[trigger] self.map().contains_key(k) ==> exists|j: int| 0 <= j < entries@.len() && entries@[j].0@ == k,
                strictly_sorted(views(out@)),
                forall|c: Seq<char>| #[trigger] views(out@).contains(c) <==> exists|j: int| 0 <= j < i && entries@[j].1.0.category@ == c,
            decreases entries@.len() - i,
        {
            let ghost prev = views(out@);
            let c = entries[i].1.0.category.clone();
            insert_sorted(&mut out, c);
            proof {
                assert forall|d: Seq<char>| #[trigger] views(out@).contains(d) <==> exists|j: int| 0 <= j < i + 1 && entries@[j].1.0.category@ == d by {
                    if views(out@).contains(d) && d != c@ {
                        assert(prev.contains(d));
                    }
                    if exists|j: int| 0 <= j < i + 1 && entries@[j].1.0.category@ == d {
                        let j = choose|j: int| 0 <= j < i + 1 && entries@[j].1.0.category@ == d;
                        if j < i {
                            assert(prev.contains(d));
                        }
                    }
                }
            }
            i = i + 1;
        }
        proof {
            assert forall|c: Seq<char>| #[trigger] views(out@).contains(c) <==> is_category(self.map(), c) by {
                if views(out@).contains(c) {
                    let j = choose|j: int| 0 <= j < entries@.len() && entries@[j].1.0.category@ == c;
                    assert(self.map().contains_key(entries@[j].0@));
                }
                if is_category(self.map(), c) {
                    let k = choose|k: Seq<char>| #[trigger] self.map().contains_key(k) && self.map()[k].0.category@ == c;
                    let j = choose|j: int| 0 <= j < entries@.len() && entries@[j].0@ == k;
                    assert(entries@[j].1.0.category@ == c);
                }
            }
        }
        out
    }

    /// The descriptions of all tools, in registration order.
    pub fn definitions(&self) -> (r: Vec<ToolSpec>)
        requires
            self.wf(),
        ensures
            r@.len() == self.ids().len(),
            forall|i: int| 0 <= i < r@.len() ==> same_spec(#[trigger] r@[i], self.map()[self.ids()[i]].0),
    {
        proof {
            self.tools.lemma_view();
        }
        let entries = self.tools.entry_list();
        let mut out: Vec<ToolSpec> = Vec::new();
        let mut i: usize = 0;
        while i < entries.len()
            invariant
                i <= entries@.len(),
                entries@ == self.tools.entries(),
                self.ids().len() == entries@.len(),
                forall|j: int| 0 <= j < entries@.len() ==> #[trigger] self.ids()[j] == entries@[j].0@,
                forall|j: int| 0 <= j < entries@.len() ==> #[trigger] self.map()[entries@[j].0@] == entries@[j].1,
                out@.len() == i,
                forall|j: int| 0 <= j < i ==> same_spec(#[trigger] out@[j], self.map()[self.ids()[j]].0),
            decreases entries@.len() - i,
        {
            proof {
                assert(self.map()[self.ids()[i as int]] == entries@[i as int].1);
            }
            out.push(entries[i].1.0.duplicate());
            i = i + 1;
        }
        out
    }

    /// The descriptions of the tools of `category`, in registration order.
    pub fn definitions_by_category(&self, category: &str) -> (r: Vec<ToolSpec>)
        requires
            self.wf(),
        ensures
            ({
                let ids = ids_in_category(self.ids(), self.map(), category@);
                &&& r@.len() == ids.len()
                &&& forall|i: int| 0 <= i < r@.len() ==> same_spec(#[trigger] r@[i], self.map()[ids[i]].0)
            }),
    {
        proof {
            self.tools.lemma_view();
        }
        let entries = self.tools.entry_list();
        let mut out: Vec<ToolSpec> = Vec::new();
        let mut i: usize = 0;
        while i < entries.len()
            invariant
                i <= entries@.len(),
                entries@ == self.tools.entries(),
                self.ids().len() == entries@.len(),
                forall|j: int| 0 <= j < entries@.len() ==> #[trigger] self.ids()[j] == entries@[j].0@,
                forall|j: int| 0 <= j < entries@.len() ==> #[trigger] self.map()[entries@[j].0@] == entries@[j].1,
                ({
                    let ids = ids_in_category(self.ids().take(i as int), self.map(), category@);
                    &&& out@.len() == ids.len()
                    &&& forall|j: int| 0 <= j < out@.len() ==> same_spec(#[trigger] out@[j], self.map()[ids[j]].0)
                }),
            decreases entries@.len() - i,
        {
            proof {
                assert(self.ids().take(i + 1).drop_last() =~= self.ids().take(i as int));
                assert(self.ids().take(i + 1).last() == entries@[i as int].0@);
                assert(self.map()[entries@[i as int].0@] == entries@[i as int].1);
            }
            if str_equal(entries[i].1.0.category.as_str(), category) {
                let d = entries[i].1.0.duplicate();
                out.push(d);
            }
            i = i + 1;
        }
        proof {
            assert(self.ids().take(entries@.len() as int) =~= self.ids());
        }
        out
    }

    /// The number of tools.
    pub fn len(&self) -> (r: usize)
        requires
            self.wf(),
        ensures
            r == self.map().len(),
            r == self.ids().len(),
    {
        self.tools.len()
    }

    pub fn is_empty(&self) -> (r: bool)
        requires
            self.wf(),
        ensures
            r == (self.map().len() == 0),
    {
        self.tools.len() == 0
    }
}

impl<T> Default for ToolRegistry<T> {
    fn default() -> (r: Self)
        ensures
            r.wf(),
            r.map() == Map::<Seq<char>, (ToolSpec, T)>::empty(),
            r.ids() == Seq::<Seq<char>>::empty(),
    {
        ToolRegistry::new()
    }
}

/// Registering a tool and then looking its id up finds that tool with its
/// description; every other id finds what it found before.
pub proof fn law_register_then_get<T>(before: ToolRegistry<T>, after: ToolRegistry<T>, spec: ToolSpec, tool: T, other: Seq<char>)
    requires
        after.map() == before.map().insert(spec.id@, (spec, tool)),
    ensures
        after.map().contains_key(spec.id@),
        after.map()[spec.id@].0 == spec,
        after.map()[spec.id@].1 == tool,
        other != spec.id@ ==> after.map().contains_key(other) == before.map().contains_key(other),
        other != spec.id@ && before.map().contains_key(other) ==> after.map()[other] == before.map()[other],
{
}

/// Removing a tool that was just registered under a new id leaves the
/// registry holding what it held before.
pub proof fn law_register_then_remove<T>(before: ToolRegistry<T>, middle: ToolRegistry<T>, after: ToolRegistry<T>, spec: ToolSpec, tool: T)
    requires
        !before.map().contains_key(spec.id@),
        middle.map() == before.map().insert(spec.id@, (spec, tool)),
        after.map() == middle.map().remove(spec.id@),
    ensures
        after.map() == before.map(),
{
    assert(after.map() =~= before.map());
}

/// Registering a tool under a new id adds one to the count; under an id that
/// is taken, the count stays.
pub proof fn law_register_count<T>(before: ToolRegistry<T>, after: ToolRegistry<T>, spec: ToolSpec, tool: T)
    requires
        before.wf(),
        after.wf(),
        after.map() == before.map().insert(spec.id@, (spec, tool)),
    ensures
        after.map().len() == if before.map().contains_key(spec.id@) {
            before.map().len()
        } else {
            before.map().len() + 1
        },
{
    before.lemma_ids();
    after.lemma_ids();
}

} // verus!

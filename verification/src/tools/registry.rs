//! The registry of tools that agents may offer to the model, keyed by name.
use serde_json::Value;
use vstd::prelude::*;

use crate::text::text_eq;

verus! {

/// How a tool presents itself to the model: name, description and the JSON
/// schema of its parameters.
pub struct ToolSchema {
    pub name: String,
    pub description: String,
    pub parameters: Value,
}

/// The mathematical value of a [`ToolSchema`].
pub struct ToolSchemaView {
    pub name: Seq<char>,
    pub description: Seq<char>,
    pub parameters: Value,
}

impl View for ToolSchema {
    type V = ToolSchemaView;

    open spec fn view(&self) -> ToolSchemaView {
        ToolSchemaView { name: self.name@, description: self.description@, parameters: self.parameters }
    }
}

impl ToolSchema {
    /// A copy of this schema.
    pub fn duplicate(&self) -> (r: ToolSchema)
        ensures
            r@ == self@,
    {
        ToolSchema { name: self.name.clone(), description: self.description.clone(), parameters: self.parameters.clone() }
    }
}

/// The entries of a sequence keyed by tool name, later entries winning.
pub open spec fn entry_map<T>(s: Seq<(ToolSchemaView, T)>) -> Map<Seq<char>, (ToolSchemaView, T)>
    decreases s.len(),
{
    if s.len() == 0 {
        Map::empty()
    } else {
        entry_map(s.drop_last()).insert(s.last().0.name, s.last())
    }
}

/// No two entries share a tool name.
pub open spec fn distinct_names<T>(s: Seq<(ToolSchemaView, T)>) -> bool {
    forall|i: int, j: int| 0 <= i < s.len() && 0 <= j < s.len() && i != j ==> s[i].0.name != s[j].0.name
}

/// With distinct names, the map holds exactly the entries, each under its name.
proof fn lemma_entry_map<T>(s: Seq<(ToolSchemaView, T)>)
    requires
        distinct_names(s),
    ensures
        forall|i: int| 0 <= i < s.len() ==> #[trigger] entry_map(s).contains_key(s[i].0.name)
            && entry_map(s)[s[i].0.name] == s[i],
        forall|n: Seq<char>| #[trigger] entry_map(s).contains_key(n) ==> exists|i: int| 0 <= i < s.len() && s[i].0.name == n,
        entry_map(s).dom().finite(),
        entry_map(s).dom().len() == s.len(),
    decreases s.len(),
{
    if s.len() > 0 {
        let p = s.drop_last();
        assert(distinct_names(p));
        lemma_entry_map(p);
        assert(!entry_map(p).contains_key(s.last().0.name)) by {
            if entry_map(p).contains_key(s.last().0.name) {
                let i = choose|i: int| 0 <= i < p.len() && p[i].0.name == s.last().0.name;
                assert(s[i].0.name == s[s.len() - 1].0.name);
            }
        }
        assert forall|n: Seq<char>| #[trigger] entry_map(s).contains_key(n) implies exists|i: int| 0 <= i < s.len() && s[i].0.name == n by {
            if n != s.last().0.name {
                let i = choose|i: int| 0 <= i < p.len() && p[i].0.name == n;
                assert(s[i].0.name == n);
            } else {
                assert(s[s.len() - 1].0.name == n);
            }
        }
        assert forall|i: int| 0 <= i < s.len() implies #[trigger] entry_map(s).contains_key(s[i].0.name)
            && entry_map(s)[s[i].0.name] == s[i] by {
            if i < s.len() - 1 {
                assert(p[i] == s[i]);
            }
        }
    }
}

/// A set of tools, each registered under its name with its schema; `T` is
/// how a tool is run.
pub struct ToolRegistry<T> {
    tools: Vec<(ToolSchema, T)>,
}

impl<T> ToolRegistry<T> {
    #[verifier::type_invariant]
    spec fn names_distinct(self) -> bool {
        distinct_names(self.entries())
    }

    /// The registered tools with their schemas, in the order first registered.
    pub closed spec fn entries(&self) -> Seq<(ToolSchemaView, T)> {
        self.tools@.map_values(|e: (ToolSchema, T)| (e.0@, e.1))
    }

    /// The registered tools with their schemas, keyed by name.
    pub closed spec fn view(&self) -> Map<Seq<char>, (ToolSchemaView, T)> {
        entry_map(self.entries())
    }

    /// A registry with no tools.
    pub fn new() -> (r: Self)
        ensures
            r.view() == Map::<Seq<char>, (ToolSchemaView, T)>::empty(),
    {
        let r = ToolRegistry { tools: Vec::new() };
        assert(r.entries() =~= Seq::<(ToolSchemaView, T)>::empty());
        r
    }

    fn position(&self, name: &str) -> (r: Option<usize>)
        ensures
            match r {
                Some(i) => i < self.entries().len() && self.entries()[i as int].0.name == name@,
                None => forall|i: int| 0 <= i < self.entries().len() ==> self.entries()[i].0.name != name@,
            },
    {
        let n = self.tools.len();
        let mut i: usize = 0;
        while i < n
            invariant
                n == self.tools@.len(),
                i <= n,
                forall|k: int| 0 <= k < i ==> self.entries()[k].0.name != name@,
            decreases n - i,
        {
            if text_eq(self.tools[i].0.name.as_str(), name) {
                return Some(i);
            }
            i = i + 1;
        }
        None
    }

    /// Registers `tool` with its schema; a tool already registered under the
    /// same name is replaced.
    pub fn register(&mut self, schema: ToolSchema, tool: T)
        ensures
            final(self).view() == old(self).view().insert(schema@.name, (schema@, tool)),
    {
        proof {
            use_type_invariant(&*self);
            lemma_entry_map(self.entries());
        }
        let ghost e = (schema@, tool);
        let ghost old_entries = self.entries();
        let pos = self.position(schema.name.as_str());
        let mut tools: Vec<(ToolSchema, T)> = Vec::new();
        std::mem::swap(&mut tools, &mut self.tools);
        match pos {
            Some(i) => {
                tools.set(i, (schema, tool));
                proof {
                    let ne = tools@.map_values(|x: (ToolSchema, T)| (x.0@, x.1));
                    assert(ne =~= old_entries.update(i as int, e));
                    assert(distinct_names(ne));
                }
                self.tools = tools;
                proof {
                    assert(self.entries() =~= old_entries.update(i as int, e));
                    lemma_entry_map(self.entries());
                    assert(self.view() =~= old(self).view().insert(e.0.name, e)) by {
                        assert forall|n: Seq<char>| #[trigger] self.view().contains_key(n)
                            <==> old(self).view().insert(e.0.name, e).contains_key(n) by {
                            if n == e.0.name {
                                assert(self.entries()[i as int].0.name == n);
                            }
                            if self.view().contains_key(n) {
                                let j = choose|j: int| 0 <= j < self.entries().len() && self.entries()[j].0.name == n;
                                if j != i {
                                    assert(old_entries[j].0.name == n);
                                }
                            }
                            if old(self).view().contains_key(n) && n != e.0.name {
                                let j = choose|j: int| 0 <= j < old_entries.len() && old_entries[j].0.name == n;
                                assert(self.entries()[j].0.name == n);
                            }
                        }
                        assert forall|n: Seq<char>| #[trigger] self.view().contains_key(n)
                            implies self.view()[n] == old(self).view().insert(e.0.name, e)[n] by {
                            let j = choose|j: int| 0 <= j < self.entries().len() && self.entries()[j].0.name == n;
                            if j != i {
                                assert(old_entries[j] == self.entries()[j]);
                            }
                        }
                    }
                }
            },
            None => {
                tools.push((schema, tool));
                proof {
                    let ne = tools@.map_values(|x: (ToolSchema, T)| (x.0@, x.1));
                    assert(ne =~= old_entries.push(e));
                    assert(distinct_names(ne));
                }
                self.tools = tools;
                proof {
                    assert(self.entries() =~= old_entries.push(e));
                    assert(self.entries().drop_last() =~= old_entries);
                }
            },
        }
    }

    /// The tool registered under `name`, if any.
    pub fn get(&self, name: &str) -> (r: Option<&T>)
        ensures
            match r {
                Some(t) => self.view().contains_key(name@) && self.view()[name@].1 == *t,
                None => !self.view().contains_key(name@),
            },
    {
        match self.get_entry(name) {
            Some(e) => Some(&e.1),
            None => None,
        }
    }

    /// The schema of the tool registered under `name`, if any.
    pub fn get_schema(&self, name: &str) -> (r: Option<&ToolSchema>)
        ensures
            match r {
                Some(s) => self.view().contains_key(name@) && self.view()[name@].0 == s@,
                None => !self.view().contains_key(name@),
            },
    {
        match self.get_entry(name) {
            Some(e) => Some(&e.0),
            None => None,
        }
    }

    fn get_entry(&self, name: &str) -> (r: Option<&(ToolSchema, T)>)
        ensures
            match r {
                Some(e) => self.view().contains_key(name@) && self.view()[name@] == (e.0@, e.1),
                None => !self.view().contains_key(name@),
            },
    {
        proof {
            use_type_invariant(self);
            lemma_entry_map(self.entries());
        }
        match self.position(name) {
            Some(i) => {
                assert(self.entries()[i as int] == (self.tools@[i as int].0@, self.tools@[i as int].1));
                assert(entry_map(self.entries()).contains_key(self.entries()[i as int].0.name));
                Some(&self.tools[i])
            },
            None => {
                proof {
                    if self.view().contains_key(name@) {
                        let j = choose|j: int| 0 <= j < self.entries().len() && self.entries()[j].0.name == name@;
                    }
                }
                None
            },
        }
    }

    /// Copies of the schemas of all registered tools, one per name.
    pub fn get_all_schemas(&self) -> (r: Vec<ToolSchema>)
        ensures
            r@.len() == self.view().dom().len(),
            forall|i: int| 0 <= i < r@.len() ==> #[trigger] self.view().contains_key(r@[i]@.name)
                && self.view()[r@[i]@.name].0 == r@[i]@,
            forall|n: Seq<char>| #[trigger] self.view().contains_key(n) ==> exists|i: int| 0 <= i < r@.len() && r@[i]@.name == n,
    {
        proof {
            use_type_invariant(self);
            lemma_entry_map(self.entries());
        }
        let mut r: Vec<ToolSchema> = Vec::new();
        let n = self.tools.len();
        let mut i: usize = 0;
        while i < n
            invariant
                n == self.tools@.len(),
                i <= n,
                r@.len() == i,
                forall|k: int| 0 <= k < i ==> #[trigger] r@[k]@ == self.entries()[k].0,
            decreases n - i,
        {
            r.push(self.tools[i].0.duplicate());
            i = i + 1;
        }
        proof {
            assert forall|m: Seq<char>| #[trigger] self.view().contains_key(m) implies exists|k: int| 0 <= k < r@.len() && r@[k]@.name == m by {
                let j = choose|j: int| 0 <= j < self.entries().len() && self.entries()[j].0.name == m;
                assert(r@[j]@.name == m);
            }
        }
        r
    }

    /// The names of all registered tools, each once.
    pub fn list_tools(&self) -> (r: Vec<String>)
        ensures
            r@.len() == self.view().dom().len(),
            forall|i: int| 0 <= i < r@.len() ==> #[trigger] self.view().contains_key(r@[i]@),
            forall|n: Seq<char>| #[trigger] self.view().contains_key(n) ==> exists|i: int| 0 <= i < r@.len() && r@[i]@ == n,
    {
        proof {
            use_type_invariant(self);
            lemma_entry_map(self.entries());
        }
        let mut r: Vec<String> = Vec::new();
        let n = self.tools.len();
        let mut i: usize = 0;
        while i < n
            invariant
                n == self.tools@.len(),
                i <= n,
                r@.len() == i,
                forall|k: int| 0 <= k < i ==> #[trigger] r@[k]@ == self.entries()[k].0.name,
            decreases n - i,
        {
            r.push(self.tools[i].0.name.clone());
            i = i + 1;
        }
        proof {
            assert forall|m: Seq<char>| #[trigger] self.view().contains_key(m) implies exists|k: int| 0 <= k < r@.len() && r@[k]@ == m by {
                let j = choose|j: int| 0 <= j < self.entries().len() && self.entries()[j].0.name == m;
                assert(r@[j]@ == m);
            }
        }
        r
    }
}

/// What a registry answers for a name after a tool was registered: that tool
/// for its own name, and what it answered before for every other name.
pub proof fn lemma_register_then_get<T>(
    before: Map<Seq<char>, (ToolSchemaView, T)>,
    s: ToolSchemaView,
    tool: T,
    n: Seq<char>,
)
    ensures
        before.insert(s.name, (s, tool)).contains_key(s.name),
        before.insert(s.name, (s, tool))[s.name] == (s, tool),
        n != s.name ==> (before.insert(s.name, (s, tool)).contains_key(n) == before.contains_key(n)),
        n != s.name && before.contains_key(n) ==> before.insert(s.name, (s, tool))[n] == before[n],
{
}

} // verus!

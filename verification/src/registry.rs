//! What a context remembers of the native modules built in it.

use vstd::prelude::*;

use crate::cstring::CString;
use crate::text::same_text;
use crate::value::{Pointer, RawValue};

verus! {

/// The native modules of a context, by name.
#[derive(Debug, PartialEq, Eq)]
pub struct NativeModules {
    entries: Vec<(String, Pointer)>,
}

spec fn names_differ(entries: Seq<(String, Pointer)>) -> bool {
    forall|i: int, j: int|
        0 <= i < j < entries.len() ==> (#[trigger] entries[i]).0@ != (#[trigger] entries[j]).0@
}

spec fn names_entry(entries: Seq<(String, Pointer)>, name: Seq<char>, i: int) -> bool {
    0 <= i < entries.len() && entries[i].0@ == name
}

spec fn entries_map(entries: Seq<(String, Pointer)>) -> Map<Seq<char>, Pointer> {
    Map::new(
        |name: Seq<char>| exists|i: int| names_entry(entries, name, i),
        |name: Seq<char>| entries[choose|i: int| names_entry(entries, name, i)].1,
    )
}

impl View for NativeModules {
    type V = Map<Seq<char>, Pointer>;

    closed spec fn view(&self) -> Map<Seq<char>, Pointer> {
        entries_map(self.entries@)
    }
}

impl NativeModules {
    #[verifier::type_invariant]
    spec fn well_formed(self) -> bool {
        names_differ(self.entries@)
    }

    /// No modules.
    pub fn new() -> (modules: NativeModules)
        ensures
            modules@ == Map::<Seq<char>, Pointer>::empty(),
    {
        let modules: NativeModules = NativeModules { entries: Vec::new() };
        assert(modules@ =~= Map::<Seq<char>, Pointer>::empty());
        modules
    }

    fn find(&self, name: &str) -> (found: Option<usize>)
        ensures
            match found {
                Some(i) => names_entry(self.entries@, name@, i as int),
                None => forall|i: int| !names_entry(self.entries@, name@, i),
            },
    {
        let mut i: usize = 0;
        while i < self.entries.len()
            invariant
                i <= self.entries@.len(),
                forall|j: int| 0 <= j < i ==> !names_entry(self.entries@, name@, j),
            decreases self.entries@.len() - i,
        {
            if same_text(self.entries[i].0.as_str(), name) {
                return Some(i);
            }
            i = i + 1;
        }
        None
    }

    /// The module of that name.
    pub fn get(&self, name: &str) -> (module: Option<Pointer>)
        ensures
            module == (if self@.contains_key(name@) {
                Some(self@[name@])
            } else {
                None::<Pointer>
            }),
    {
        proof {
            use_type_invariant(self);
        }
        match self.find(name) {
            Some(i) => {
                proof {
                    let k = choose|k: int| names_entry(self.entries@, name@, k);
                    assert(names_entry(self.entries@, name@, k));
                    assert(k == i);
                }
                Some(self.entries[i].1)
            },
            None => None,
        }
    }

    /// Files a module under a name, in place of the one that had it.
    pub fn insert(&mut self, name: String, module: Pointer)
        ensures
            final(self)@ == old(self)@.insert(name@, module),
    {
        proof {
            use_type_invariant(&*self);
        }
        let found: Option<usize> = self.find(name.as_str());
        let mut entries: Vec<(String, Pointer)> = Vec::new();
        std::mem::swap(&mut entries, &mut self.entries);
        let ghost before = entries@;
        let ghost key = name@;
        match found {
            Some(i) => {
                entries.set(i, (name, module));
                proof {
                    lemma_replaced(before, entries@, i as int, key, module);
                }
            },
            None => {
                entries.push((name, module));
                proof {
                    lemma_added(before, entries@, key, module);
                }
            },
        }
        self.entries = entries;
    }
}

proof fn lemma_lookup(entries: Seq<(String, Pointer)>, name: Seq<char>, i: int)
    requires
        names_differ(entries),
        names_entry(entries, name, i),
    ensures
        entries_map(entries).contains_key(name),
        entries_map(entries)[name] == entries[i].1,
{
    let k = choose|k: int| names_entry(entries, name, k);
    assert(names_entry(entries, name, k));
    assert(k == i);
}

proof fn lemma_replaced(
    before: Seq<(String, Pointer)>,
    after: Seq<(String, Pointer)>,
    i: int,
    name: Seq<char>,
    module: Pointer,
)
    requires
        names_differ(before),
        names_entry(before, name, i),
        after.len() == before.len(),
        after[i].0@ == name && after[i].1 == module,
        forall|j: int| 0 <= j < before.len() && j != i ==> after[j] == before[j],
    ensures
        names_differ(after),
        entries_map(after) == entries_map(before).insert(name, module),
{
    assert forall|a: int, b: int| 0 <= a < b < after.len() implies (#[trigger] after[a]).0@ != (
    #[trigger] after[b]).0@ by {
        assert(before[a].0@ != before[b].0@);
    }
    let target = entries_map(before).insert(name, module);
    assert forall|n: Seq<char>| #[trigger] entries_map(after).contains_key(n)
        <==> target.contains_key(n) by {
        if entries_map(after).contains_key(n) {
            let k = choose|k: int| names_entry(after, n, k);
            assert(names_entry(before, n, k));
        }
        if target.contains_key(n) {
            if n == name {
                assert(names_entry(after, n, i));
            } else {
                let k = choose|k: int| names_entry(before, n, k);
                assert(names_entry(after, n, k));
            }
        }
    }
    assert forall|n: Seq<char>| #[trigger] entries_map(after).contains_key(n) implies entries_map(
        after,
    )[n] == target[n] by {
        let k = choose|k: int| names_entry(after, n, k);
        lemma_lookup(after, n, k);
        if n == name {
            lemma_lookup(after, n, i);
        } else {
            lemma_lookup(before, n, k);
        }
    }
    assert(entries_map(after) =~= target);
}

proof fn lemma_added(
    before: Seq<(String, Pointer)>,
    after: Seq<(String, Pointer)>,
    name: Seq<char>,
    module: Pointer,
)
    requires
        names_differ(before),
        forall|i: int| !names_entry(before, name, i),
        after.len() == before.len() + 1,
        after[before.len() as int].0@ == name && after[before.len() as int].1 == module,
        forall|j: int| 0 <= j < before.len() ==> after[j] == before[j],
    ensures
        names_differ(after),
        entries_map(after) == entries_map(before).insert(name, module),
{
    let last = before.len() as int;
    assert forall|a: int, b: int| 0 <= a < b < after.len() implies (#[trigger] after[a]).0@ != (
    #[trigger] after[b]).0@ by {
        assert(!names_entry(before, name, a));
        if b < last {
            assert(before[a].0@ != before[b].0@);
        }
    }
    let target = entries_map(before).insert(name, module);
    assert forall|n: Seq<char>| #[trigger] entries_map(after).contains_key(n)
        <==> target.contains_key(n) by {
        if entries_map(after).contains_key(n) {
            let k = choose|k: int| names_entry(after, n, k);
            if k < last {
                assert(names_entry(before, n, k));
            }
        }
        if target.contains_key(n) {
            if n == name {
                assert(names_entry(after, n, last));
            } else {
                let k = choose|k: int| names_entry(before, n, k);
                assert(names_entry(after, n, k));
            }
        }
    }
    assert forall|n: Seq<char>| #[trigger] entries_map(after).contains_key(n) implies entries_map(
        after,
    )[n] == target[n] by {
        let k = choose|k: int| names_entry(after, n, k);
        lemma_lookup(after, n, k);
        if n == name {
            lemma_lookup(after, n, last);
        } else {
            assert(k < last);
            assert(names_entry(before, n, k));
            lemma_lookup(before, n, k);
        }
    }
    assert(entries_map(after) =~= target);
}

/// One export of a native module: the module's name, the export's name, and the value.
pub type SpecExport = (Seq<char>, Seq<u8>, RawValue);

/// The exports of all native modules of a context, in the order in which they were built. The
/// data holds one reference to each value.
#[derive(Debug, PartialEq, Eq)]
pub struct ModuleExportsData {
    entries: Vec<(String, CString, RawValue)>,
}

impl View for ModuleExportsData {
    type V = Seq<SpecExport>;

    closed spec fn view(&self) -> Seq<SpecExport> {
        self.entries@.map_values(|e: (String, CString, RawValue)| (e.0@, e.1@, e.2))
    }
}

/// The exports of the module `name`: of each its own name and its value.
pub open spec fn exports_of(data: Seq<SpecExport>, name: Seq<char>) -> Seq<(Seq<u8>, RawValue)>
    decreases data.len(),
{
    if data.len() == 0 {
        Seq::empty()
    } else if data.last().0 == name {
        exports_of(data.drop_last(), name).push((data.last().1, data.last().2))
    } else {
        exports_of(data.drop_last(), name)
    }
}

impl ModuleExportsData {
    /// No exports.
    pub fn new() -> (data: ModuleExportsData)
        ensures
            data@ == Seq::<SpecExport>::empty(),
    {
        let data: ModuleExportsData = ModuleExportsData { entries: Vec::new() };
        assert(data@ =~= Seq::<SpecExport>::empty());
        data
    }

    /// The number of exports.
    pub fn len(&self) -> (len: usize)
        ensures
            len == self@.len(),
    {
        self.entries.len()
    }

    /// Adds an export of the module `module`.
    pub fn add_export(&mut self, module: &str, name: CString, value: RawValue)
        ensures
            final(self)@ == old(self)@.push((module@, name@, value)),
    {
        self.entries.push((module.to_owned(), name, value));
        assert(self@ =~= old(self)@.push((module@, name@, value)));
    }

    /// Whether export number `i` belongs to the module `module`.
    pub fn belongs(&self, i: usize, module: &str) -> (same: bool)
        requires
            i < self@.len(),
        ensures
            same == (self@[i as int].0 == module@),
    {
        same_text(self.entries[i].0.as_str(), module)
    }

    /// The name of export number `i`.
    pub fn name(&self, i: usize) -> (name: CString)
        requires
            i < self@.len(),
        ensures
            name@ == self@[i as int].1,
    {
        self.entries[i].1.duplicate()
    }

    /// The value of export number `i`.
    pub fn value(&self, i: usize) -> (value: RawValue)
        requires
            i < self@.len(),
        ensures
            value == self@[i as int].2,
    {
        self.entries[i].2
    }
}

} // verus!

//! A registry of objects by name, with a default when no name is given.

use crate::text::str_eq;
use vstd::prelude::*;

verus! {

/// One registered object and the name it goes by.
struct NamedObject<T> {
    name: String,
    object: T,
}

/// Objects by name. A name occurs once: registering a name again replaces
/// the object that was there.
pub struct NamedObjectStore<T> {
    entries: Vec<NamedObject<T>>,
}

/// No two entries carry the same name.
spec fn names_distinct<T>(entries: Seq<NamedObject<T>>) -> bool {
    forall|i: int, j: int|
        0 <= i < j < entries.len() ==> (#[trigger] entries[i]).name@ != (#[trigger] entries[j]).name@
}

/// Some entry carries the name.
spec fn has_name<T>(entries: Seq<NamedObject<T>>, name: Seq<char>) -> bool {
    exists|i: int| 0 <= i < entries.len() && (#[trigger] entries[i]).name@ == name
}

/// The place of an entry that carries the name.
spec fn index_of<T>(entries: Seq<NamedObject<T>>, name: Seq<char>) -> int {
    choose|i: int| 0 <= i < entries.len() && (#[trigger] entries[i]).name@ == name
}

/// The mapping from names to objects that a list of entries stands for.
spec fn entries_map<T>(entries: Seq<NamedObject<T>>) -> Map<Seq<char>, T> {
    Map::new(
        |name: Seq<char>| has_name(entries, name),
        |name: Seq<char>| entries[index_of(entries, name)].object,
    )
}

/// What an exact lookup finds in a mapping.
pub open spec fn lookup<T>(objects: Map<Seq<char>, T>, name: Seq<char>) -> Option<T> {
    if objects.contains_key(name) {
        Some(objects[name])
    } else {
        None
    }
}

/// The default of a mapping: its object, where it holds exactly one.
pub open spec fn default_of<T>(objects: Map<Seq<char>, T>) -> Option<T> {
    if objects.dom().finite() && objects.dom().len() == 1 {
        Some(objects[objects.dom().choose()])
    } else {
        None
    }
}

/// What a lookup by an optional name finds: the named object, or the default
/// where no name is given.
pub open spec fn lookup_or_default<T>(objects: Map<Seq<char>, T>, name: Option<Seq<char>>) -> Option<T> {
    match name {
        Some(name) => lookup(objects, name),
        None => default_of(objects),
    }
}

/// The characters of a name that may be left out.
pub open spec fn name_view(name: Option<&str>) -> Option<Seq<char>> {
    match name {
        Some(name) => Some(name@),
        None => None,
    }
}

/// With distinct names, the entry at a place is the one its name maps to.
proof fn lemma_entry_at<T>(entries: Seq<NamedObject<T>>, i: int)
    requires
        names_distinct(entries),
        0 <= i < entries.len(),
    ensures
        entries_map(entries).contains_key(entries[i].name@),
        entries_map(entries)[entries[i].name@] == entries[i].object,
{
    let name = entries[i].name@;
    assert(has_name(entries, name));
    let j = index_of(entries, name);
    assert(0 <= j < entries.len() && entries[j].name@ == name);
    assert(j == i);
}

/// A new name at the end adds one key to the mapping.
proof fn lemma_push_entry<T>(entries: Seq<NamedObject<T>>, entry: NamedObject<T>)
    requires
        names_distinct(entries),
        !has_name(entries, entry.name@),
    ensures
        names_distinct(entries.push(entry)),
        entries_map(entries.push(entry)) == entries_map(entries).insert(entry.name@, entry.object),
{
    let after = entries.push(entry);
    assert(names_distinct(after)) by {
        assert forall|i: int, j: int| 0 <= i < j < after.len() implies (#[trigger] after[i]).name@
            != (#[trigger] after[j]).name@ by {
            if j == entries.len() {
                assert(after[i] == entries[i]);
            } else {
                assert(after[i] == entries[i]);
                assert(after[j] == entries[j]);
            }
        }
    }
    let grown = entries_map(entries).insert(entry.name@, entry.object);
    assert forall|name: Seq<char>| entries_map(after).contains_key(name) == grown.contains_key(
        name,
    ) by {
        if has_name(after, name) {
            let i = index_of(after, name);
            if i < entries.len() {
                assert(entries[i] == after[i]);
            }
        }
        if has_name(entries, name) {
            let i = index_of(entries, name);
            assert(after[i] == entries[i]);
        }
        if name == entry.name@ {
            assert(after[entries.len() as int].name@ == name);
        }
    }
    assert forall|name: Seq<char>| entries_map(after).contains_key(name) implies entries_map(
        after,
    )[name] == grown[name] by {
        let i = index_of(after, name);
        lemma_entry_at(after, i);
        if i < entries.len() {
            assert(entries[i] == after[i]);
            lemma_entry_at(entries, i);
        }
    }
    assert(entries_map(after) =~= grown);
}

/// A new object under a name that is there replaces the old one.
proof fn lemma_replace_entry<T>(entries: Seq<NamedObject<T>>, i: int, entry: NamedObject<T>)
    requires
        names_distinct(entries),
        0 <= i < entries.len(),
        entries[i].name@ == entry.name@,
    ensures
        names_distinct(entries.update(i, entry)),
        entries_map(entries.update(i, entry)) == entries_map(entries).insert(
            entry.name@,
            entry.object,
        ),
{
    let after = entries.update(i, entry);
    assert(names_distinct(after)) by {
        assert forall|a: int, b: int| 0 <= a < b < after.len() implies (#[trigger] after[a]).name@
            != (#[trigger] after[b]).name@ by {
            assert(after[a].name@ == entries[a].name@);
            assert(after[b].name@ == entries[b].name@);
        }
    }
    let grown = entries_map(entries).insert(entry.name@, entry.object);
    assert forall|name: Seq<char>| entries_map(after).contains_key(name) == grown.contains_key(
        name,
    ) by {
        if has_name(after, name) {
            let k = index_of(after, name);
            assert(entries[k].name@ == after[k].name@);
        }
        if has_name(entries, name) {
            let k = index_of(entries, name);
            assert(after[k].name@ == entries[k].name@);
        }
        if name == entry.name@ {
            assert(after[i].name@ == name);
        }
    }
    assert forall|name: Seq<char>| entries_map(after).contains_key(name) implies entries_map(
        after,
    )[name] == grown[name] by {
        let k = index_of(after, name);
        lemma_entry_at(after, k);
        if k != i {
            assert(entries[k] == after[k]);
            lemma_entry_at(entries, k);
        }
    }
    assert(entries_map(after) =~= grown);
}

/// With distinct names, the mapping has as many keys as there are entries.
proof fn lemma_entries_count<T>(entries: Seq<NamedObject<T>>)
    requires
        names_distinct(entries),
    ensures
        entries_map(entries).dom().finite(),
        entries_map(entries).dom().len() == entries.len(),
    decreases entries.len(),
{
    if entries.len() == 0 {
        assert(entries_map(entries).dom() =~= Set::<Seq<char>>::empty());
    } else {
        let front = entries.drop_last();
        let last = entries.last();
        assert(names_distinct(front)) by {
            assert forall|i: int, j: int| 0 <= i < j < front.len() implies (#[trigger] front[i]).name@
                != (#[trigger] front[j]).name@ by {
                assert(front[i] == entries[i]);
                assert(front[j] == entries[j]);
            }
        }
        assert(!has_name(front, last.name@)) by {
            if has_name(front, last.name@) {
                let i = index_of(front, last.name@);
                assert(front[i] == entries[i]);
                assert(entries[entries.len() - 1] == last);
            }
        }
        lemma_entries_count(front);
        lemma_push_entry(front, last);
        assert(front.push(last) =~= entries);
        assert(!entries_map(front).dom().contains(last.name@));
        assert(entries_map(entries).dom() =~= entries_map(front).dom().insert(last.name@));
    }
}

/// The default of a registry with exactly one entry is that entry; a
/// registry with none, or with two or more, has no default.
pub proof fn law_default_is_the_single_entry<T>(objects: Map<Seq<char>, T>)
    requires
        objects.dom().finite(),
    ensures
        objects.dom().len() == 1 ==> forall|name: Seq<char>|
            objects.contains_key(name) ==> default_of(objects) == Some(objects[name]),
        objects.dom().len() == 1 ==> default_of(objects) is Some,
        objects.dom().len() != 1 ==> default_of(objects) is None,
{
    if objects.dom().len() == 1 {
        assert forall|name: Seq<char>| objects.contains_key(name) implies default_of(objects)
            == Some(objects[name]) by {
            Set::lemma_is_singleton(objects.dom());
            let picked = objects.dom().choose();
            assert(objects.dom().contains(picked)) by {
                vstd::set::axiom_set_choose_len(objects.dom());
            }
            assert(picked == name);
        }
    }
}

impl<T> View for NamedObjectStore<T> {
    type V = Map<Seq<char>, T>;

    closed spec fn view(&self) -> Map<Seq<char>, T> {
        entries_map(self.entries@)
    }
}

impl<T> NamedObjectStore<T> {
    /// The registry is well formed: each name occurs once.
    pub closed spec fn wf(&self) -> bool {
        names_distinct(self.entries@)
    }

    /// An empty registry.
    pub fn new() -> (store: Self)
        ensures
            store.wf(),
            store@ == Map::<Seq<char>, T>::empty(),
    {
        let store = NamedObjectStore { entries: Vec::new() };
        assert(store@ =~= Map::<Seq<char>, T>::empty());
        store
    }

    /// Registers an object under a name. An object that was registered under
    /// the same name is replaced.
    pub fn add(&mut self, name: &str, object: T)
        requires
            old(self).wf(),
        ensures
            final(self).wf(),
            final(self)@ == old(self)@.insert(name@, object),
            final(self)@.dom().finite(),
    {
        proof {
            lemma_entries_count(self.entries@);
        }
        let entry = NamedObject { name: name.to_owned(), object };
        let mut i: usize = 0;
        while i < self.entries.len()
            invariant
                i <= self.entries.len(),
                *self == *old(self),
                entry.name@ == name@,
                entry.object == object,
                names_distinct(self.entries@),
                forall|k: int| 0 <= k < i ==> (#[trigger] self.entries@[k]).name@ != name@,
            decreases self.entries.len() - i,
        {
            if str_eq(self.entries[i].name.as_str(), name) {
                proof {
                    lemma_entries_count(self.entries@);
                    lemma_replace_entry(self.entries@, i as int, entry);
                }
                self.entries.set(i, entry);
                return;
            }
            i += 1;
        }
        proof {
            lemma_push_entry(self.entries@, entry);
        }
        self.entries.push(entry);
    }

    /// The object registered under exactly this name.
    pub fn get(&self, name: &str) -> (found: Option<&T>)
        requires
            self.wf(),
        ensures
            found is Some <==> self@.contains_key(name@),
            found matches Some(object) ==> *object == self@[name@],
    {
        let mut i: usize = 0;
        while i < self.entries.len()
            invariant
                i <= self.entries.len(),
                names_distinct(self.entries@),
                forall|k: int| 0 <= k < i ==> (#[trigger] self.entries@[k]).name@ != name@,
            decreases self.entries.len() - i,
        {
            if str_eq(self.entries[i].name.as_str(), name) {
                proof {
                    lemma_entry_at(self.entries@, i as int);
                }
                return Some(&self.entries[i].object);
            }
            i += 1;
        }
        None
    }

    /// The object registered under the name, where one is given. Without a
    /// name: the only object of the registry, and nothing where the registry
    /// holds none or more than one.
    pub fn get_or_default(&self, name: Option<&str>) -> (found: Option<&T>)
        requires
            self.wf(),
        ensures
            self@.dom().finite(),
            found is Some <==> lookup_or_default(self@, name_view(name)) is Some,
            found matches Some(object) ==> lookup_or_default(self@, name_view(name)) == Some(
                *object,
            ),
            name is None ==> (found is Some <==> self@.dom().len() == 1),
    {
        proof {
            lemma_entries_count(self.entries@);
        }
        match name {
            Some(name) => self.get(name),
            None => {
                if self.entries.len() == 1 {
                    proof {
                        lemma_entry_at(self.entries@, 0);
                        law_default_is_the_single_entry(self@);
                    }
                    Some(&self.entries[0].object)
                } else {
                    None
                }
            },
        }
    }
}

impl<T> Default for NamedObjectStore<T> {
    fn default() -> (store: Self)
        ensures
            store.wf(),
            store@ == Map::<Seq<char>, T>::empty(),
    {
        NamedObjectStore::new()
    }
}

} // verus!

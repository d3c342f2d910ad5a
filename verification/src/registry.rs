use vstd::prelude::*;
use vstd::string::StringExecFns;

verus! {

/// Whether entry `i` of `entries` is registered under `name`.
pub open spec fn named_at<F>(entries: Seq<(String, F)>, i: int, name: Seq<char>) -> bool {
    0 <= i < entries.len() && entries[i].0@ == name
}

/// No two entries share a name.
pub open spec fn distinct_names<F>(entries: Seq<(String, F)>) -> bool {
    forall|i: int, j: int|
        0 <= i < j < entries.len() ==> (#[trigger] entries[i]).0@ != (#[trigger] entries[j]).0@
}

/// The mapping that a list of entries stands for: each name to the callback beside it.
pub open spec fn table_of<F>(entries: Seq<(String, F)>) -> Map<Seq<char>, F> {
    Map::new(
        |name: Seq<char>| exists|i: int| named_at(entries, i, name),
        |name: Seq<char>| entries[choose|i: int| named_at(entries, i, name)].1,
    )
}

/// Callbacks by name. A name is held once: registering it again replaces the callback.
pub struct Registry<F> {
    entries: Vec<(String, F)>,
}

impl<F> View for Registry<F> {
    type V = Map<Seq<char>, F>;

    closed spec fn view(&self) -> Map<Seq<char>, F> {
        table_of(self.entries@)
    }
}

impl<F> Registry<F> {
    #[verifier::type_invariant]
    spec fn unique(&self) -> bool {
        distinct_names(self.entries@)
    }

    /// A registry with nothing in it.
    pub fn new() -> (r: Registry<F>)
        ensures
            r@ == Map::<Seq<char>, F>::empty(),
    {
        let r = Registry { entries: Vec::new() };
        assert(r@ =~= Map::<Seq<char>, F>::empty());
        r
    }

    fn position(&self, name: &String) -> (at: Option<usize>)
        ensures
            match at {
                Some(i) => named_at(self.entries@, i as int, name@),
                None => forall|i: int| !named_at(self.entries@, i, name@),
            },
    {
        let mut i: usize = 0;
        while i < self.entries.len()
            invariant
                i <= self.entries@.len(),
                forall|j: int| 0 <= j < i ==> !named_at(self.entries@, j, name@),
            decreases self.entries.len() - i,
        {
            if self.entries[i].0 == *name {
                return Some(i);
            }
            i = i + 1;
        }
        None
    }

    /// Registers `callback` under `name`, in place of what the name held before.
    pub fn insert(self, name: String, callback: F) -> (r: Registry<F>)
        ensures
            r@ == self@.insert(name@, callback),
    {
        proof {
            use_type_invariant(&self);
        }
        let at = self.position(&name);
        let ghost before = self.entries@;
        let ghost key = name@;
        let mut entries = self.entries;
        match at {
            Some(i) => {
                entries.set(i, (name, callback));
            },
            None => {
                entries.push((name, callback));
            },
        }
        proof {
            lemma_registered(before, entries@, at, key, callback);
        }
        Registry { entries }
    }

    /// The callback registered under `name`, if there is one.
    pub fn get(&self, name: &str) -> (r: Option<&F>)
        ensures
            match r {
                Some(callback) => self@.contains_key(name@) && self@[name@] == *callback,
                None => !self@.contains_key(name@),
            },
    {
        proof {
            use_type_invariant(self);
        }
        let key = String::from_str(name);
        match self.position(&key) {
            Some(i) => {
                proof {
                    let j = choose|j: int| named_at(self.entries@, j, name@);
                    assert(named_at(self.entries@, i as int, name@));
                    assert(named_at(self.entries@, j, name@));
                    assert(i == j);
                }
                Some(&self.entries[i].1)
            },
            None => None,
        }
    }

    /// How many names are registered.
    pub fn len(&self) -> (n: usize)
        ensures
            n == self@.dom().len(),
            self@.dom().finite(),
    {
        proof {
            use_type_invariant(self);
            lemma_names_counted(self.entries@);
        }
        self.entries.len()
    }
}

/// Writing an entry over the one that holds its name, or behind the others if none
/// does, keeps the names distinct and changes the mapping at that name only.
proof fn lemma_registered<F>(
    before: Seq<(String, F)>,
    after: Seq<(String, F)>,
    at: Option<usize>,
    key: Seq<char>,
    callback: F,
)
    requires
        distinct_names(before),
        match at {
            Some(k) => named_at(before, k as int, key) && after.len() == before.len()
                && named_at(after, k as int, key) && after[k as int].1 == callback
                && forall|i: int| 0 <= i < before.len() && i != k ==> after[i] == before[i],
            None => after.len() == before.len() + 1
                && named_at(after, before.len() as int, key)
                && after[before.len() as int].1 == callback
                && (forall|i: int| !named_at(before, i, key))
                && forall|i: int| 0 <= i < before.len() ==> after[i] == before[i],
        },
    ensures
        distinct_names(after),
        table_of(after) == table_of(before).insert(key, callback),
{
    let slot = match at {
        Some(k) => k as int,
        None => before.len() as int,
    };
    assert forall|a: int, b: int| 0 <= a < b < after.len() implies (#[trigger] after[a]).0@
        != (#[trigger] after[b]).0@ by {
        if a != slot && b != slot {
            assert(before[a].0@ != before[b].0@);
        } else if at is Some {
            assert(before[a].0@ != before[b].0@);
        } else {
            assert(!named_at(before, a, key));
        }
    }
    let target = table_of(before).insert(key, callback);
    assert forall|n: Seq<char>| #[trigger] table_of(after).contains_key(n) == target.contains_key(n) by {
        if table_of(after).contains_key(n) && n != key {
            let i = choose|i: int| named_at(after, i, n);
            assert(named_at(before, i, n));
        }
        if table_of(before).contains_key(n) {
            let i = choose|i: int| named_at(before, i, n);
            assert(named_at(after, if i == slot { slot } else { i }, n));
        }
    }
    assert forall|n: Seq<char>| #[trigger] table_of(after).contains_key(n) implies table_of(after)[n]
        == target[n] by {
        let i = choose|i: int| named_at(after, i, n);
        if n == key {
            assert(i == slot);
        } else {
            let j = choose|j: int| named_at(before, j, n);
            assert(named_at(before, i, n));
            assert(i == j);
        }
    }
    assert(table_of(after) =~= target);
}

/// With no name held twice, the mapping has as many names as the list has entries.
pub proof fn lemma_names_counted<F>(entries: Seq<(String, F)>)
    requires
        distinct_names(entries),
    ensures
        table_of(entries).dom().finite(),
        table_of(entries).dom().len() == entries.len(),
    decreases entries.len(),
{
    if entries.len() == 0 {
        assert(table_of(entries).dom() =~= Set::<Seq<char>>::empty());
    } else {
        let rest = entries.drop_last();
        let last = entries.last();
        assert forall|i: int, j: int| 0 <= i < j < rest.len() implies (#[trigger] rest[i]).0@
            != (#[trigger] rest[j]).0@ by {
            assert(rest[i] == entries[i]);
            assert(rest[j] == entries[j]);
        }
        lemma_names_counted(rest);
        if table_of(rest).dom().contains(last.0@) {
            let i = choose|i: int| named_at(rest, i, last.0@);
            assert(rest[i] == entries[i]);
            assert(entries[i].0@ != entries[entries.len() - 1].0@);
        }
        let grown = table_of(rest).dom().insert(last.0@);
        assert forall|n: Seq<char>| #[trigger] table_of(entries).dom().contains(n) == grown.contains(n) by {
            if table_of(entries).dom().contains(n) {
                let i = choose|i: int| named_at(entries, i, n);
                if i < rest.len() {
                    assert(named_at(rest, i, n));
                }
            }
            if table_of(rest).dom().contains(n) {
                let i = choose|i: int| named_at(rest, i, n);
                assert(named_at(entries, i, n));
            }
            if n == last.0@ {
                assert(named_at(entries, entries.len() - 1, n));
            }
        }
        assert(table_of(entries).dom() =~= grown);
    }
}

} // verus!

use vstd::prelude::*;

verus! {

use crate::transform::Transform;

/// One registered name with its master-relative placement.
#[derive(Debug)]
pub(crate) struct Entry {
    pub name: String,
    pub value: Transform,
}

/// The mapping denoted by a sequence of entries: each name is bound to the
/// value of its earliest entry, matching lookup order. (`Table::insert`
/// never creates a duplicate name, so later entries are never shadowed.)
pub(crate) open spec fn entries_map(s: Seq<Entry>) -> Map<Seq<char>, Transform>
    decreases s.len(),
{
    if s.len() == 0 {
        Map::empty()
    } else {
        entries_map(s.skip(1)).insert(s[0].name@, s[0].value)
    }
}

/// A name is bound in the denoted mapping exactly when some entry carries it.
pub(crate) proof fn lemma_entries_map_domain(s: Seq<Entry>, k: Seq<char>)
    ensures
        entries_map(s).contains_key(k) <==> exists|j: int|
            0 <= j < s.len() && #[trigger] s[j].name@ == k,
    decreases s.len(),
{
    if s.len() == 0 {
    } else {
        lemma_entries_map_domain(s.skip(1), k);
        if s[0].name@ == k {
            assert(0 <= 0 < s.len() && s[0].name@ == k);
        } else {
            if exists|j: int| 0 <= j < s.len() && #[trigger] s[j].name@ == k {
                let j = choose|j: int| 0 <= j < s.len() && #[trigger] s[j].name@ == k;
                assert(s.skip(1)[j - 1].name@ == k);
            }
            if entries_map(s).contains_key(k) {
                let j = choose|j: int|
                    0 <= j < s.skip(1).len() && #[trigger] s.skip(1)[j].name@ == k;
                assert(s[j + 1].name@ == k);
            }
        }
    }
}

/// For a bound name, the denoted mapping holds the value of its first entry.
pub(crate) proof fn lemma_entries_map_first(s: Seq<Entry>, i: int)
    requires
        0 <= i < s.len(),
        forall|j: int| 0 <= j < i ==> #[trigger] s[j].name@ != s[i].name@,
    ensures
        entries_map(s).contains_key(s[i].name@),
        entries_map(s)[s[i].name@] == s[i].value,
    decreases i,
{
    if i == 0 {
    } else {
        assert(forall|j: int|
            0 <= j < i - 1 ==> #[trigger] s.skip(1)[j].name@ == s[j + 1].name@);
        assert(s.skip(1)[i - 1] == s[i]);
        lemma_entries_map_first(s.skip(1), i - 1);
    }
}

/// Appending an entry under a fresh name adds exactly that binding.
pub(crate) proof fn lemma_entries_map_push(s: Seq<Entry>, e: Entry)
    requires
        forall|j: int| 0 <= j < s.len() ==> #[trigger] s[j].name@ != e.name@,
    ensures
        entries_map(s.push(e)) == entries_map(s).insert(e.name@, e.value),
    decreases s.len(),
{
    if s.len() == 0 {
        assert(s.push(e)[0] == e);
        assert(s.push(e).skip(1) =~= Seq::<Entry>::empty());
        assert(s =~= Seq::<Entry>::empty());
        assert(entries_map(s.push(e)) == entries_map(s.push(e).skip(1)).insert(
            e.name@,
            e.value,
        ));
        assert(entries_map(s.push(e)) =~= entries_map(s).insert(e.name@, e.value));
    } else {
        assert(forall|j: int|
            0 <= j < s.skip(1).len() ==> #[trigger] s.skip(1)[j].name@ == s[j + 1].name@);
        lemma_entries_map_push(s.skip(1), e);
        assert(s.push(e).skip(1) =~= s.skip(1).push(e));
        assert(entries_map(s.push(e)) =~= entries_map(s).insert(e.name@, e.value));
    }
}

/// An append-only association table from names to placements. A name is
/// bound at most once; the binding never changes afterwards.
#[derive(Debug)]
pub(crate) struct Table {
    entries: Vec<Entry>,
}

impl View for Table {
    type V = Map<Seq<char>, Transform>;

    closed spec fn view(&self) -> Map<Seq<char>, Transform> {
        entries_map(self.entries@)
    }
}

impl Table {
    /// An empty table.
    pub(crate) fn new() -> (t: Table)
        ensures
            t@ == Map::<Seq<char>, Transform>::empty(),
    {
        Table { entries: Vec::new() }
    }

    /// Look a name up.
    pub(crate) fn lookup(&self, name: &String) -> (r: Option<Transform>)
        ensures
            match r {
                Some(v) => self@.contains_key(name@) && v == self@[name@],
                None => !self@.contains_key(name@),
            },
    {
        let n = self.entries.len();
        let mut i: usize = 0;
        while i < n
            invariant
                n == self.entries@.len(),
                0 <= i <= n,
                forall|j: int| 0 <= j < i ==> #[trigger] self.entries@[j].name@ != name@,
            decreases n - i,
        {
            if self.entries[i].name == *name {
                proof {
                    lemma_entries_map_first(self.entries@, i as int);
                }
                return Some(self.entries[i].value);
            }
            i += 1;
        }
        proof {
            lemma_entries_map_domain(self.entries@, name@);
        }
        None
    }

    /// Bind a name unless it is already bound; reports whether it was added.
    pub(crate) fn insert(&mut self, name: String, value: Transform) -> (added: bool)
        ensures
            old(self)@.contains_key(name@) ==> !added && *final(self) == *old(self),
            !old(self)@.contains_key(name@) ==> added && final(self)@ == old(self)@.insert(
                name@,
                value,
            ),
    {
        let present = self.lookup(&name).is_some();
        if present {
            false
        } else {
            proof {
                lemma_entries_map_domain(self.entries@, name@);
            }
            let e = Entry { name, value };
            proof {
                lemma_entries_map_push(self.entries@, e);
            }
            self.entries.push(e);
            true
        }
    }
}

} // verus!

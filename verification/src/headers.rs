//! Header fields: a mapping from field name to field value that keeps the
//! order in which names were first inserted.

use vstd::prelude::*;
use vstd::string::*;
use crate::text::str_eq;

verus! {

/// Position of the first entry named `name`, or `entries.len()`.
pub open spec fn position(entries: Seq<(Seq<char>, Seq<char>)>, name: Seq<char>) -> int
    decreases entries.len(),
{
    if entries.len() == 0 {
        0
    } else if entries[0].0 == name {
        0
    } else {
        1 + position(entries.drop_first(), name)
    }
}

/// The value stored under `name`, if any.
pub open spec fn lookup(entries: Seq<(Seq<char>, Seq<char>)>, name: Seq<char>) -> Option<
    Seq<char>,
> {
    let i = position(entries, name);
    if i < entries.len() {
        Some(entries[i].1)
    } else {
        None
    }
}

/// `entries` after storing `value` under `name`: a known name keeps its
/// place and takes the new value, a new name goes to the end.
pub open spec fn insert(
    entries: Seq<(Seq<char>, Seq<char>)>,
    name: Seq<char>,
    value: Seq<char>,
) -> Seq<(Seq<char>, Seq<char>)> {
    let i = position(entries, name);
    if i < entries.len() {
        entries.update(i, (name, value))
    } else {
        entries.push((name, value))
    }
}

/// No name occurs twice.
pub open spec fn distinct_names(entries: Seq<(Seq<char>, Seq<char>)>) -> bool {
    forall|i: int, j: int|
        0 <= i < j < entries.len() ==> (#[trigger] entries[i]).0 != (#[trigger] entries[j]).0
}

/// `position` is the least index that carries `name`.
pub proof fn lemma_position(entries: Seq<(Seq<char>, Seq<char>)>, name: Seq<char>)
    ensures
        0 <= position(entries, name) <= entries.len(),
        forall|k: int| 0 <= k < position(entries, name) ==> (#[trigger] entries[k]).0 != name,
        position(entries, name) < entries.len() ==> entries[position(entries, name)].0 == name,
    decreases entries.len(),
{
    if entries.len() > 0 && entries[0].0 != name {
        let t = entries.drop_first();
        lemma_position(t, name);
        assert forall|k: int| 0 <= k < position(entries, name) implies (#[trigger] entries[k]).0
            != name by {
            if k > 0 {
                assert(entries[k] == t[k - 1]);
            }
        }
    }
}

/// An index that carries `name` and is preceded by no such entry, or the
/// length where no entry carries it, is `position(entries, name)`.
pub proof fn lemma_position_unique(
    entries: Seq<(Seq<char>, Seq<char>)>,
    name: Seq<char>,
    i: int,
)
    requires
        0 <= i <= entries.len(),
        forall|k: int| 0 <= k < i ==> (#[trigger] entries[k]).0 != name,
        i < entries.len() ==> entries[i].0 == name,
    ensures
        position(entries, name) == i,
{
    lemma_position(entries, name);
    let j = position(entries, name);
    if j < i {
        assert(entries[j].0 == name);
    } else if i < j {
        assert(entries[i].0 == name);
    }
}

/// Storing a value keeps names distinct, makes it the value found under its
/// name, and leaves what is found under every other name as it was.
pub proof fn lemma_insert(
    entries: Seq<(Seq<char>, Seq<char>)>,
    name: Seq<char>,
    value: Seq<char>,
    other: Seq<char>,
)
    requires
        distinct_names(entries),
    ensures
        distinct_names(insert(entries, name, value)),
        lookup(insert(entries, name, value), name) == Some(value),
        other != name ==> lookup(insert(entries, name, value), other) == lookup(entries, other),
{
    let after = insert(entries, name, value);
    let i = position(entries, name);
    lemma_position(entries, name);
    lemma_position(entries, other);
    assert forall|a: int, b: int| 0 <= a < b < after.len() implies (#[trigger] after[a]).0 != (
    #[trigger] after[b]).0 by {
        if i < entries.len() {
            assert(after[a].0 == entries[a].0);
            assert(after[b].0 == entries[b].0);
        } else if b == entries.len() {
            assert(after[a] == entries[a]);
        } else {
            assert(after[a] == entries[a]);
            assert(after[b] == entries[b]);
        }
    }
    assert forall|k: int| 0 <= k < i implies (#[trigger] after[k]).0 != name by {
        assert(after[k] == entries[k]);
    }
    lemma_position_unique(after, name, i);
    if other != name {
        let j = position(entries, other);
        assert forall|k: int| 0 <= k < j implies (#[trigger] after[k]).0 != other by {
            assert(after[k].0 == entries[k].0);
        }
        if j < entries.len() {
            assert(after[j] == entries[j]);
            lemma_position_unique(after, other, j);
        } else {
            assert forall|k: int| 0 <= k < after.len() implies (#[trigger] after[k]).0
                != other by {
                if k < entries.len() {
                    assert(after[k].0 == entries[k].0);
                }
            }
            lemma_position_unique(after, other, after.len() as int);
        }
    }
}

spec fn pairs(stored: Seq<(String, String)>) -> Seq<(Seq<char>, Seq<char>)> {
    Seq::new(stored.len(), |i: int| (stored[i].0@, stored[i].1@))
}

fn find_in(stored: &Vec<(String, String)>, name: &str) -> (i: usize)
    ensures
        i == position(pairs(stored@), name@),
        i <= stored@.len(),
{
    let mut i: usize = 0;
    while i < stored.len()
        invariant
            i <= stored.len(),
            forall|k: int| 0 <= k < i ==> (#[trigger] pairs(stored@)[k]).0 != name@,
        decreases stored.len() - i,
    {
        if str_eq(stored[i].0.as_str(), name) {
            proof {
                lemma_position_unique(pairs(stored@), name@, i as int);
            }
            return i;
        }
        i += 1;
    }
    proof {
        lemma_position_unique(pairs(stored@), name@, i as int);
    }
    i
}

/// An ordered set of header fields. Names are compared as they are
/// written, letter case included.
#[derive(Debug, PartialEq, Eq)]
pub struct HttpHeaders {
    entries: Vec<(String, String)>,
}

impl View for HttpHeaders {
    type V = Seq<(Seq<char>, Seq<char>)>;

    closed spec fn view(&self) -> Seq<(Seq<char>, Seq<char>)> {
        pairs(self.entries@)
    }
}

impl Clone for HttpHeaders {
    fn clone(&self) -> (copy: Self)
        ensures
            copy@ == self@,
    {
        proof {
            use_type_invariant(self);
        }
        let mut entries: Vec<(String, String)> = Vec::new();
        let mut i: usize = 0;
        while i < self.entries.len()
            invariant
                i <= self.entries.len(),
                entries@.len() == i,
                forall|k: int| 0 <= k < i ==> entries@[k] == self.entries@[k],
            decreases self.entries.len() - i,
        {
            let e = &self.entries[i];
            entries.push((e.0.clone(), e.1.clone()));
            i += 1;
        }
        assert(pairs(entries@) =~= pairs(self.entries@));
        HttpHeaders { entries }
    }
}

impl HttpHeaders {
    /// What holds of every set of header fields: no name occurs twice.
    #[verifier::type_invariant]
    pub open spec fn names_are_distinct(&self) -> bool {
        distinct_names(self@)
    }

    /// No fields.
    pub fn new() -> (headers: Self)
        ensures
            headers@ == Seq::<(Seq<char>, Seq<char>)>::empty(),
    {
        let entries: Vec<(String, String)> = Vec::new();
        assert(pairs(entries@) =~= Seq::<(Seq<char>, Seq<char>)>::empty());
        HttpHeaders { entries }
    }

    /// Number of fields.
    pub fn len(&self) -> (n: usize)
        ensures
            n == self@.len(),
    {
        self.entries.len()
    }

    /// Whether there is no field.
    pub fn is_empty(&self) -> (empty: bool)
        ensures
            empty == (self@.len() == 0),
    {
        self.entries.len() == 0
    }

    /// The name and value of the field at `index`, in insertion order, if
    /// there are that many fields.
    pub fn entry(&self, index: usize) -> (field: Option<(&str, &str)>)
        ensures
            match field {
                Some((name, value)) => index < self@.len() && name@ == self@[index as int].0
                    && value@ == self@[index as int].1,
                None => index >= self@.len(),
            },
    {
        if index < self.entries.len() {
            let e = &self.entries[index];
            Some((e.0.as_str(), e.1.as_str()))
        } else {
            None
        }
    }

    /// Whether a field is stored under `name`.
    pub fn contains_key(&self, name: &str) -> (found: bool)
        ensures
            found == lookup(self@, name@).is_some(),
    {
        find_in(&self.entries, name) < self.entries.len()
    }

    /// The value stored under `name`.
    pub fn get(&self, name: &str) -> (value: Option<&str>)
        ensures
            match value {
                Some(v) => lookup(self@, name@) == Some(v@),
                None => lookup(self@, name@).is_none(),
            },
    {
        let i = find_in(&self.entries, name);
        if i < self.entries.len() {
            Some(self.entries[i].1.as_str())
        } else {
            None
        }
    }

    /// Stores `value` under `name`, in place of any value stored there.
    pub fn insert(&mut self, name: String, value: String)
        ensures
            final(self)@ == insert(old(self)@, name@, value@),
            distinct_names(final(self)@),
    {
        let mut taken = HttpHeaders::new();
        core::mem::swap(&mut taken, self);
        proof {
            use_type_invariant(&taken);
        }
        let mut entries = taken.entries;
        let ghost before = pairs(entries@);
        let ghost n = name@;
        let ghost v = value@;
        let i = find_in(&entries, name.as_str());
        if i < entries.len() {
            entries.set(i, (name, value));
        } else {
            entries.push((name, value));
        }
        proof {
            lemma_insert(before, n, v, n);
            assert(pairs(entries@) =~= insert(before, n, v));
        }
        *self = HttpHeaders { entries };
    }
}

} // verus!

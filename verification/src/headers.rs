//! Header fields: a mapping from name to value, held as a list without
//! repeated names.

use vstd::prelude::*;
use vstd::std_specs::cmp::PartialEqSpecImpl;

verus! {

/// A header as text: its name, then its value.
pub open spec fn entry_text(entry: (String, String)) -> (Seq<char>, Seq<char>) {
    (entry.0@, entry.1@)
}

/// A list of headers as text, in the order of the list.
pub open spec fn entries_text(entries: Seq<(String, String)>) -> Seq<(Seq<char>, Seq<char>)> {
    Seq::new(entries.len(), |i: int| entry_text(entries[i]))
}

/// No two entries of the list share a name.
pub open spec fn names_distinct(entries: Seq<(Seq<char>, Seq<char>)>) -> bool {
    forall|i: int, j: int| 0 <= i < j < entries.len() ==> entries[i].0 != entries[j].0
}

/// The mapping that a list of headers stands for. Where a name occurs more
/// than once, the last entry with that name counts.
pub open spec fn header_map(entries: Seq<(Seq<char>, Seq<char>)>) -> Map<Seq<char>, Seq<char>>
    decreases entries.len(),
{
    if entries.len() == 0 {
        Map::empty()
    } else {
        header_map(entries.drop_last()).insert(entries.last().0, entries.last().1)
    }
}

/// Every name of `inner` is a name of `outer`, with the same value.
pub open spec fn held_within(
    inner: Map<Seq<char>, Seq<char>>,
    outer: Map<Seq<char>, Seq<char>>,
) -> bool {
    forall|name: Seq<char>| #[trigger]
        inner.contains_key(name) ==> outer.contains_key(name) && inner[name] == outer[name]
}

/// Every name of the mapping comes from some entry of the list, and every
/// entry's name is in the mapping.
pub proof fn lemma_header_map_names(entries: Seq<(Seq<char>, Seq<char>)>)
    ensures
        forall|i: int|
            0 <= i < entries.len() ==> header_map(entries).contains_key(#[trigger] entries[i].0),
        forall|name: Seq<char>| #[trigger]
            header_map(entries).contains_key(name) ==> exists|i: int|
                0 <= i < entries.len() && #[trigger] entries[i].0 == name,
    decreases entries.len(),
{
    if entries.len() > 0 {
        let front = entries.drop_last();
        lemma_header_map_names(front);
        assert forall|i: int| 0 <= i < entries.len() implies header_map(entries).contains_key(
            #[trigger] entries[i].0,
        ) by {
            if i < entries.len() - 1 {
                assert(front[i] == entries[i]);
            }
        }
        assert forall|name: Seq<char>| #[trigger]
            header_map(entries).contains_key(name) implies exists|i: int|
            0 <= i < entries.len() && #[trigger] entries[i].0 == name by {
            if name == entries.last().0 {
                assert(entries[entries.len() - 1].0 == name);
            } else {
                assert(header_map(front).contains_key(name));
                let i: int = choose|i: int| 0 <= i < front.len() && #[trigger] front[i].0 == name;
                assert(entries[i].0 == name);
            }
        }
    }
}

/// In a list without repeated names, the mapping gives each entry's name that
/// entry's value.
pub proof fn lemma_header_map_values(entries: Seq<(Seq<char>, Seq<char>)>)
    requires
        names_distinct(entries),
    ensures
        forall|i: int|
            0 <= i < entries.len() ==> header_map(entries).contains_key(#[trigger] entries[i].0)
                && header_map(entries)[entries[i].0] == entries[i].1,
    decreases entries.len(),
{
    if entries.len() > 0 {
        let front = entries.drop_last();
        lemma_header_map_values(front);
        assert forall|i: int| 0 <= i < entries.len() implies header_map(entries).contains_key(
            #[trigger] entries[i].0,
        ) && header_map(entries)[entries[i].0] == entries[i].1 by {
            if i < entries.len() - 1 {
                assert(front[i] == entries[i]);
                assert(entries[i].0 != entries[entries.len() - 1].0);
            }
        }
    }
}

/// Insertion order is irrelevant: two lists without repeated names that hold
/// the same entries, in whatever order, stand for the same mapping.
pub proof fn lemma_header_order_is_irrelevant(
    first: Seq<(Seq<char>, Seq<char>)>,
    second: Seq<(Seq<char>, Seq<char>)>,
)
    requires
        names_distinct(first),
        names_distinct(second),
        forall|entry: (Seq<char>, Seq<char>)| first.contains(entry) <==> second.contains(entry),
    ensures
        header_map(first) == header_map(second),
{
    lemma_header_map_names(first);
    lemma_header_map_names(second);
    lemma_header_map_values(first);
    lemma_header_map_values(second);
    let a = header_map(first);
    let b = header_map(second);
    assert forall|name: Seq<char>| a.contains_key(name) implies b.contains_key(name) && a[name]
        == b[name] by {
        let i: int = choose|i: int| 0 <= i < first.len() && #[trigger] first[i].0 == name;
        assert(first.contains(first[i]));
        assert(second.contains(first[i]));
        let j: int = choose|j: int| 0 <= j < second.len() && second[j] == first[i];
        assert(second[j].0 == name);
    }
    assert forall|name: Seq<char>| b.contains_key(name) implies a.contains_key(name) by {
        let j: int = choose|j: int| 0 <= j < second.len() && #[trigger] second[j].0 == name;
        assert(second.contains(second[j]));
        assert(first.contains(second[j]));
        let i: int = choose|i: int| 0 <= i < first.len() && first[i] == second[j];
        assert(first[i].0 == name);
    }
    assert(a =~= b);
}

/// Replacing the value of the entry that bears `name` is inserting into the
/// mapping.
proof fn lemma_replace_is_insert(
    entries: Seq<(Seq<char>, Seq<char>)>,
    at: int,
    name: Seq<char>,
    value: Seq<char>,
)
    requires
        names_distinct(entries),
        0 <= at < entries.len(),
        entries[at].0 == name,
    ensures
        names_distinct(entries.update(at, (name, value))),
        header_map(entries.update(at, (name, value))) == header_map(entries).insert(name, value),
{
    let replaced = entries.update(at, (name, value));
    assert(names_distinct(replaced)) by {
        assert forall|i: int, j: int| 0 <= i < j < replaced.len() implies replaced[i].0
            != replaced[j].0 by {
            assert(replaced[i].0 == entries[i].0);
            assert(replaced[j].0 == entries[j].0);
        }
    }
    lemma_header_map_names(entries);
    lemma_header_map_names(replaced);
    lemma_header_map_values(entries);
    lemma_header_map_values(replaced);
    let a = header_map(replaced);
    let b = header_map(entries).insert(name, value);
    assert forall|key: Seq<char>| a.contains_key(key) implies b.contains_key(key) && a[key]
        == b[key] by {
        let i: int = choose|i: int| 0 <= i < replaced.len() && #[trigger] replaced[i].0 == key;
        assert(entries[i].0 == key);
        if i != at {
            assert(replaced[i] == entries[i]);
            assert(key != name);
        } else {
            assert(replaced[at].1 == value);
        }
    }
    assert forall|key: Seq<char>| b.contains_key(key) implies a.contains_key(key) by {
        if key == name {
            assert(replaced[at].0 == name);
        } else {
            let i: int = choose|i: int| 0 <= i < entries.len() && #[trigger] entries[i].0 == key;
            assert(replaced[i].0 == key);
        }
    }
    assert(a =~= b);
}

/// The header fields of a request: each name once, with its value. Two
/// values are equal when they map the same names to the same values, in
/// whatever order they were filled.
#[derive(Debug)]
pub struct Headers {
    entries: Vec<(String, String)>,
}

impl View for Headers {
    type V = Map<Seq<char>, Seq<char>>;

    closed spec fn view(&self) -> Map<Seq<char>, Seq<char>> {
        header_map(entries_text(self.entries@))
    }
}

impl Clone for Headers {
    fn clone(&self) -> (copy: Headers)
        ensures
            copy@ == self@,
    {
        proof {
            use_type_invariant(self);
        }
        let count: usize = self.entries.len();
        let mut entries: Vec<(String, String)> = Vec::new();
        let mut at: usize = 0;
        while at < count
            invariant
                at <= count,
                count == self.entries.len(),
                entries@.len() == at,
                entries_text(entries@) == entries_text(self.entries@.take(at as int)),
            decreases count - at,
        {
            let name = self.entries[at].0.clone();
            let value = self.entries[at].1.clone();
            proof {
                let before = entries_text(entries@);
                let after = entries_text(entries@.push((name, value)));
                let wanted = entries_text(self.entries@.take(at + 1));
                assert forall|i: int| 0 <= i < after.len() implies after[i] == wanted[i] by {
                    if i < at {
                        assert(after[i] == before[i]);
                        assert(before[i] == entries_text(self.entries@.take(at as int))[i]);
                    }
                }
                assert(after =~= wanted);
            }
            entries.push((name, value));
            at += 1;
        }
        proof {
            assert(self.entries@.take(count as int) =~= self.entries@);
        }
        Headers { entries }
    }
}

impl PartialEq for Headers {
    fn eq(&self, other: &Headers) -> (equal: bool) {
        let equal = self.within(other) && other.within(self);
        proof {
            if equal {
                assert forall|name: Seq<char>|
                    self@.contains_key(name) == other@.contains_key(name) && (self@.contains_key(
                        name,
                    ) ==> self@[name] == other@[name]) by {
                    if other@.contains_key(name) {
                        assert(self@.contains_key(name));
                    }
                }
                assert(self@ =~= other@);
            }
        }
        equal
    }
}

impl Eq for Headers {

}

impl PartialEqSpecImpl for Headers {
    open spec fn obeys_eq_spec() -> bool {
        true
    }

    open spec fn eq_spec(&self, other: &Headers) -> bool {
        self@ == other@
    }
}

impl Headers {
    #[verifier::type_invariant]
    spec fn each_name_once(&self) -> bool {
        names_distinct(entries_text(self.entries@))
    }

    /// No header at all.
    pub fn new() -> (headers: Headers)
        ensures
            headers@ == Map::<Seq<char>, Seq<char>>::empty(),
    {
        Headers { entries: Vec::new() }
    }

    /// Sets the header `name` to `value`, in place of an earlier value under
    /// that name if there is one.
    pub fn insert(&mut self, name: String, value: String)
        ensures
            final(self)@ == old(self)@.insert(name@, value@),
    {
        proof {
            use_type_invariant(&*self);
        }
        let mut entries: Vec<(String, String)> = Vec::new();
        std::mem::swap(&mut self.entries, &mut entries);
        let count: usize = entries.len();
        let mut at: usize = 0;
        let mut found = false;
        while at < count && !found
            invariant
                at <= count,
                count == entries.len(),
                found ==> at < count && entries@[at as int].0@ == name@,
                !found ==> forall|k: int| 0 <= k < at ==> entries@[k].0@ != name@,
            decreases count - at + if found { 0int } else { 1int },
        {
            if entries[at].0 == name {
                found = true;
            } else {
                at += 1;
            }
        }
        if found {
            proof {
                lemma_replace_is_insert(entries_text(entries@), at as int, name@, value@);
                assert(entries_text(entries@.update(at as int, (name, value))) =~= entries_text(
                    entries@,
                ).update(at as int, (name@, value@)));
            }
            entries[at] = (name, value);
        } else {
            proof {
                let before = entries_text(entries@);
                let after = entries_text(entries@.push((name, value)));
                assert(after.drop_last() =~= before);
                assert(after.last() == (name@, value@));
                assert forall|i: int, j: int| 0 <= i < j < after.len() implies after[i].0
                    != after[j].0 by {
                    if j < before.len() {
                        assert(after[i] == before[i] && after[j] == before[j]);
                    } else {
                        assert(after[i].0 == entries@[i].0@);
                    }
                }
            }
            entries.push((name, value));
        }
        self.entries = entries;
    }

    /// The headers that a list of pairs stands for, the pairs taken in order.
    pub fn from_pairs(pairs: Vec<(String, String)>) -> (headers: Headers)
        ensures
            headers@ == header_map(entries_text(pairs@)),
    {
        let ghost given = pairs@;
        let mut headers = Headers::new();
        for pair in it: pairs
            invariant
                it.seq() == given,
                headers@ == header_map(entries_text(given.take(it.index() as int))),
        {
            let (name, value) = pair;
            proof {
                let done = entries_text(given.take(it.index() as int));
                let next = entries_text(given.take(it.index() + 1));
                assert(next.drop_last() =~= done);
                assert(next.last() == (name@, value@));
            }
            headers.insert(name, value);
        }
        proof {
            assert(given.take(given.len() as int) =~= given);
        }
        headers
    }

    /// The value under `name`, if the headers hold that name.
    pub fn get(&self, name: &str) -> (value: Option<&String>)
        ensures
            value is Some <==> self@.contains_key(name@),
            value is Some ==> value.unwrap()@ == self@[name@],
    {
        proof {
            use_type_invariant(self);
        }
        let wanted = name.to_owned();
        let count: usize = self.entries.len();
        let mut at: usize = 0;
        while at < count
            invariant
                at <= count,
                count == self.entries.len(),
                wanted@ == name@,
                names_distinct(entries_text(self.entries@)),
                forall|k: int| 0 <= k < at ==> self.entries@[k].0@ != name@,
            decreases count - at,
        {
            if self.entries[at].0 == wanted {
                proof {
                    lemma_header_map_values(entries_text(self.entries@));
                    assert(entries_text(self.entries@)[at as int].0 == name@);
                }
                return Some(&self.entries[at].1);
            }
            at += 1;
        }
        proof {
            lemma_header_map_names(entries_text(self.entries@));
            if self@.contains_key(name@) {
                let text = entries_text(self.entries@);
                let i: int = choose|i: int| 0 <= i < text.len() && #[trigger] text[i].0 == name@;
                assert(self.entries@[i].0@ == name@);
            }
        }
        None
    }

    /// Whether `other` holds every header of these, with the same value.
    fn within(&self, other: &Headers) -> (held: bool)
        ensures
            held == held_within(self@, other@),
    {
        proof {
            use_type_invariant(self);
        }
        let count: usize = self.entries.len();
        let mut at: usize = 0;
        while at < count
            invariant
                at <= count,
                count == self.entries.len(),
                names_distinct(entries_text(self.entries@)),
                forall|k: int|
                    0 <= k < at ==> other@.contains_key(#[trigger] entries_text(self.entries@)[k].0)
                        && other@[entries_text(self.entries@)[k].0] == entries_text(
                        self.entries@,
                    )[k].1,
            decreases count - at,
        {
            let found = match other.get(self.entries[at].0.as_str()) {
                Some(value) => *value == self.entries[at].1,
                None => false,
            };
            if !found {
                proof {
                    let text = entries_text(self.entries@);
                    lemma_header_map_values(text);
                    assert(self@.contains_key(text[at as int].0));
                    assert(self@[text[at as int].0] == text[at as int].1);
                }
                return false;
            }
            at += 1;
        }
        proof {
            let text = entries_text(self.entries@);
            lemma_header_map_names(text);
            lemma_header_map_values(text);
            assert forall|name: Seq<char>| #[trigger]
                self@.contains_key(name) implies other@.contains_key(name) && self@[name]
                == other@[name] by {
                let i: int = choose|i: int| 0 <= i < text.len() && #[trigger] text[i].0 == name;
                assert(other@.contains_key(text[i].0));
            }
        }
        true
    }

    /// The headers as a list: each held name once, in no particular order.
    pub fn entries(&self) -> (entries: &Vec<(String, String)>)
        ensures
            names_distinct(entries_text(entries@)),
            header_map(entries_text(entries@)) == self@,
    {
        proof {
            use_type_invariant(self);
        }
        &self.entries
    }
}

} // verus!

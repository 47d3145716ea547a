//! A set of permission names.

use vstd::prelude::*;
use vstd::string::*;

verus! {

/// `names` with `name` added at the end, unless it is there already.
pub open spec fn with_name(names: Seq<Seq<char>>, name: Seq<char>) -> Seq<Seq<char>> {
    if names.contains(name) {
        names
    } else {
        names.push(name)
    }
}

/// The names of `list` in the order of their first occurrence, each once.
pub open spec fn distinct_names(list: Seq<Seq<char>>) -> Seq<Seq<char>>
    decreases list.len(),
{
    if list.len() == 0 {
        Seq::empty()
    } else {
        with_name(distinct_names(list.drop_last()), list.last())
    }
}

/// The names of `names` written one after the other with `separator` between
/// each two.
pub open spec fn joined(names: Seq<Seq<char>>, separator: Seq<char>) -> Seq<char>
    decreases names.len(),
{
    if names.len() == 0 {
        Seq::empty()
    } else if names.len() == 1 {
        names[0]
    } else {
        joined(names.drop_last(), separator) + separator + names.last()
    }
}

/// Adding a name keeps a list free of repetitions, and adds exactly that name
/// to what the list holds.
pub proof fn lemma_with_name(names: Seq<Seq<char>>, name: Seq<char>)
    requires
        names.no_duplicates(),
    ensures
        with_name(names, name).no_duplicates(),
        with_name(names, name).to_set() == names.to_set().insert(name),
{
    let after = with_name(names, name);
    if names.contains(name) {
        assert(after.to_set() =~= names.to_set().insert(name));
    } else {
        assert forall|i: int, j: int| 0 <= i < after.len() && 0 <= j < after.len() && i != j
            implies after[i] != after[j] by {
            if i < names.len() && j < names.len() {
            } else if i < names.len() {
                assert(names.contains(names[i]));
            } else {
                assert(names.contains(names[j]));
            }
        }
        assert forall|p: Seq<char>| after.to_set().contains(p) <==> names.to_set().insert(
            name,
        ).contains(p) by {
            if after.contains(p) {
                let i = choose|i: int| 0 <= i < after.len() && after[i] == p;
                if i < names.len() {
                    assert(names.contains(p));
                }
            }
            if names.contains(p) {
                let i = choose|i: int| 0 <= i < names.len() && names[i] == p;
                assert(after[i] == p);
            }
            if p == name {
                assert(after[names.len() as int] == p);
            }
        }
        assert(after.to_set() =~= names.to_set().insert(name));
    }
}

/// The distinct names of a list repeat nothing and are the names of the list.
pub proof fn lemma_distinct_names(list: Seq<Seq<char>>)
    ensures
        distinct_names(list).no_duplicates(),
        distinct_names(list).to_set() == list.to_set(),
    decreases list.len(),
{
    if list.len() == 0 {
        assert(distinct_names(list).to_set() =~= list.to_set());
    } else {
        let front = list.drop_last();
        lemma_distinct_names(front);
        lemma_with_name(distinct_names(front), list.last());
        assert forall|p: Seq<char>| list.to_set().contains(p) <==> front.to_set().insert(
            list.last(),
        ).contains(p) by {
            if list.contains(p) {
                let i = choose|i: int| 0 <= i < list.len() && list[i] == p;
                if i < front.len() {
                    assert(front[i] == p);
                }
            }
            if front.contains(p) {
                let i = choose|i: int| 0 <= i < front.len() && front[i] == p;
                assert(list[i] == p);
            }
            if p == list.last() {
                assert(list[list.len() - 1] == p);
            }
        }
        assert(list.to_set() =~= front.to_set().insert(list.last()));
    }
}

/// A set of permission names. It remembers the order in which the names came
/// in, and holds none of them twice.
#[derive(Debug)]
pub struct PermissionSet {
    items: Vec<String>,
}

impl View for PermissionSet {
    type V = Set<Seq<char>>;

    /// The names that the set holds.
    open spec fn view(&self) -> Set<Seq<char>> {
        self.names().to_set()
    }
}

impl Clone for PermissionSet {
    /// A set of the same names in the same order.
    fn clone(&self) -> (copy: PermissionSet)
        ensures
            copy.names() == self.names(),
            copy@ == self@,
    {
        proof {
            use_type_invariant(self);
        }
        let mut items: Vec<String> = Vec::new();
        let mut i: usize = 0;
        while i < self.items.len()
            invariant
                i <= self.items.len(),
                items@.map_values(|item: String| item@) =~= self.names().take(i as int),
            decreases self.items.len() - i,
        {
            let item = self.items[i].clone();
            assert(item@ == self.names()[i as int]);
            let ghost before = items@.map_values(|item: String| item@);
            items.push(item);
            assert(items@.map_values(|item: String| item@) =~= before.push(item@));
            assert(self.names().take(i + 1) =~= self.names().take(i as int).push(item@));
            i += 1;
        }
        assert(self.names().take(i as int) =~= self.names());
        PermissionSet { items }
    }
}

impl PermissionSet {
    /// The names of the set in the order in which they came in.
    pub closed spec fn names(&self) -> Seq<Seq<char>> {
        self.items@.map_values(|item: String| item@)
    }

    #[verifier::type_invariant]
    spec fn holds_nothing_twice(self) -> bool {
        self.names().no_duplicates()
    }

    /// The empty set.
    pub fn new() -> (set: PermissionSet)
        ensures
            set.names() == Seq::<Seq<char>>::empty(),
            set@ == Set::<Seq<char>>::empty(),
    {
        let set = PermissionSet { items: Vec::new() };
        assert(set.names() =~= Seq::<Seq<char>>::empty());
        assert(set@ =~= Set::<Seq<char>>::empty());
        set
    }

    /// The number of names in the set.
    pub fn len(&self) -> (count: usize)
        ensures
            count == self.names().len(),
            count == self@.len(),
    {
        proof {
            use_type_invariant(self);
            self.names().unique_seq_to_set();
        }
        self.items.len()
    }

    /// Whether the set holds `name`.
    pub fn contains(&self, name: &str) -> (found: bool)
        ensures
            found == self@.contains(name@),
            found == self.names().contains(name@),
    {
        let wanted = name.to_owned();
        let mut i: usize = 0;
        while i < self.items.len()
            invariant
                i <= self.items.len(),
                wanted@ == name@,
                forall|j: int| 0 <= j < i ==> self.names()[j] != name@,
            decreases self.items.len() - i,
        {
            if self.items[i] == wanted {
                assert(self.names()[i as int] == name@);
                return true;
            }
            i += 1;
        }
        false
    }

    /// Adds `name` to the set. Returns whether the name was new; a name that
    /// the set holds already stays where it is.
    pub fn insert(&mut self, name: String) -> (added: bool)
        ensures
            final(self).names() == with_name(old(self).names(), name@),
            final(self)@ == old(self)@.insert(name@),
            added == !old(self)@.contains(name@),
    {
        proof {
            use_type_invariant(&*self);
            lemma_with_name(self.names(), name@);
        }
        if self.contains(name.as_str()) {
            false
        } else {
            let ghost before = self.names();
            let mut held = PermissionSet::new();
            core::mem::swap(self, &mut held);
            let mut items = held.items;
            items.push(name);
            assert(items@.map_values(|item: String| item@) =~= before.push(name@));
            *self = PermissionSet { items };
            true
        }
    }

    /// The set of the names in `list`. A name that occurs more than once is
    /// taken where it occurs first.
    pub fn from_vec(list: Vec<String>) -> (set: PermissionSet)
        ensures
            set.names() == distinct_names(list.deep_view()),
            set@ == list.deep_view().to_set(),
    {
        let mut set = PermissionSet::new();
        let mut i: usize = 0;
        let ghost all = list.deep_view();
        assert(all.take(0) =~= Seq::<Seq<char>>::empty());
        while i < list.len()
            invariant
                i <= list.len(),
                all == list.deep_view(),
                all.len() == list.len(),
                set.names() == distinct_names(all.take(i as int)),
            decreases list.len() - i,
        {
            let name = list[i].clone();
            assert(name@ == all[i as int]);
            assert(all.take(i + 1).drop_last() =~= all.take(i as int));
            set.insert(name);
            i += 1;
        }
        proof {
            assert(all.take(i as int) =~= all);
            lemma_distinct_names(all);
        }
        set
    }

    /// The names of the set in the order in which they came in.
    pub fn to_vec(&self) -> (list: Vec<String>)
        ensures
            list.deep_view() == self.names(),
    {
        let mut list: Vec<String> = Vec::new();
        let mut i: usize = 0;
        while i < self.items.len()
            invariant
                i <= self.items.len(),
                list.deep_view() =~= self.names().take(i as int),
            decreases self.items.len() - i,
        {
            let item = self.items[i].clone();
            assert(item@ == self.names()[i as int]);
            let ghost before = list.deep_view();
            list.push(item);
            assert(list.deep_view() =~= before.push(item@));
            assert(self.names().take(i + 1) =~= self.names().take(i as int).push(item@));
            i += 1;
        }
        assert(self.names().take(i as int) =~= self.names());
        list
    }

    /// Whether the set holds every name of `other`.
    pub fn is_superset(&self, other: &PermissionSet) -> (covers: bool)
        ensures
            covers == other@.subset_of(self@),
    {
        let mut i: usize = 0;
        while i < other.items.len()
            invariant
                i <= other.items.len(),
                forall|j: int| 0 <= j < i ==> self@.contains(other.names()[j]),
            decreases other.items.len() - i,
        {
            if !self.contains(other.items[i].as_str()) {
                assert(other@.contains(other.names()[i as int]));
                return false;
            }
            i += 1;
        }
        assert forall|p: Seq<char>| other@.contains(p) implies self@.contains(p) by {
            let j = choose|j: int| 0 <= j < other.names().len() && other.names()[j] == p;
        }
        true
    }

    /// The names of the set, in the order in which they came in, with
    /// `separator` between each two.
    pub fn join(&self, separator: &str) -> (text: String)
        ensures
            text@ == joined(self.names(), separator@),
    {
        let mut text = String::new();
        let mut i: usize = 0;
        let ghost names = self.names();
        assert(names.take(0) =~= Seq::<Seq<char>>::empty());
        while i < self.items.len()
            invariant
                i <= self.items.len(),
                names == self.names(),
                text@ == joined(names.take(i as int), separator@),
            decreases self.items.len() - i,
        {
            let ghost before = text@;
            if i > 0 {
                text.append(separator);
            }
            text.append(self.items[i].as_str());
            proof {
                let upto = names.take(i + 1);
                assert(upto.drop_last() =~= names.take(i as int));
                assert(upto.last() == self.items[i as int]@);
                if i == 0 {
                    assert(before =~= Seq::<char>::empty());
                    assert(text@ =~= upto[0]);
                }
            }
            i += 1;
        }
        assert(names.take(i as int) =~= names);
        text
    }
}

} // verus!

//! The players that are online.
//!
//! Presence is known only from what the log reports: a join adds a name, a quit
//! removes it. The names are kept in the order in which they joined, and no
//! name is held twice.

use crate::text::{join_strings, joined};
use vstd::prelude::*;
use vstd::string::*;

verus! {

/// What stands between two names in a listing.
pub const NAME_SEPARATOR: &'static str = ", ";

/// `names` after `name` has joined: unchanged where the name is present,
/// else with the name at the end.
pub open spec fn with_name(names: Seq<Seq<char>>, name: Seq<char>) -> Seq<Seq<char>> {
    if names.contains(name) {
        names
    } else {
        names.push(name)
    }
}

/// `names` after `name` has left: the other names, in their order.
pub open spec fn without_name(names: Seq<Seq<char>>, name: Seq<char>) -> Seq<Seq<char>>
    decreases names.len(),
{
    if names.len() == 0 {
        names
    } else if names.last() == name {
        without_name(names.drop_last(), name)
    } else {
        without_name(names.drop_last(), name).push(names.last())
    }
}

/// Removing a name that is not there changes nothing.
pub proof fn lemma_without_absent(names: Seq<Seq<char>>, name: Seq<char>)
    requires
        !names.contains(name),
    ensures
        without_name(names, name) == names,
    decreases names.len(),
{
    if names.len() > 0 {
        let front = names.drop_last();
        assert(names.last() == names[names.len() - 1]);
        assert forall|i: int| 0 <= i < front.len() implies front[i] != name by {
            assert(front[i] == names[i]);
        }
        lemma_without_absent(front, name);
        assert(front.push(names.last()) =~= names);
    }
}

/// Where no name occurs twice, removing the name at position `at` removes
/// that one entry and nothing else.
pub proof fn lemma_without_at(names: Seq<Seq<char>>, at: int)
    requires
        names.no_duplicates(),
        0 <= at < names.len(),
    ensures
        without_name(names, names[at]) == names.remove(at),
    decreases names.len(),
{
    let name = names[at];
    let front = names.drop_last();
    assert(front.no_duplicates()) by {
        assert forall|i: int, j: int|
            0 <= i < front.len() && 0 <= j < front.len() && i != j implies front[i] != front[j] by {
            assert(front[i] == names[i] && front[j] == names[j]);
        }
    }
    if at == names.len() - 1 {
        assert forall|i: int| 0 <= i < front.len() implies front[i] != name by {
            assert(front[i] == names[i]);
        }
        lemma_without_absent(front, name);
        assert(names.remove(at) =~= front);
    } else {
        assert(names.last() != name);
        assert(front[at] == name);
        lemma_without_at(front, at);
        assert(front.remove(at).push(names.last()) =~= names.remove(at));
    }
}

/// After a name has left it is no longer there, whatever the list held.
pub proof fn lemma_without_excludes(names: Seq<Seq<char>>, name: Seq<char>)
    ensures
        !without_name(names, name).contains(name),
    decreases names.len(),
{
    if names.len() > 0 {
        let front = without_name(names.drop_last(), name);
        lemma_without_excludes(names.drop_last(), name);
        if names.last() != name {
            let kept = front.push(names.last());
            assert forall|i: int| 0 <= i < kept.len() implies kept[i] != name by {
                if i < front.len() {
                    assert(front[i] == kept[i]);
                }
            }
        }
    }
}

/// A join keeps the names distinct, leaves the name present, and makes the
/// count one larger unless the name was present already. A second join of the
/// same name changes nothing.
pub proof fn lemma_join_counts_once(names: Seq<Seq<char>>, name: Seq<char>)
    requires
        names.no_duplicates(),
    ensures
        with_name(names, name).no_duplicates(),
        with_name(names, name).contains(name),
        with_name(names, name).len() == names.len() + if names.contains(name) {
            0int
        } else {
            1int
        },
        with_name(with_name(names, name), name) == with_name(names, name),
{
    let joined = with_name(names, name);
    if !names.contains(name) {
        assert(joined[names.len() as int] == name);
        assert forall|i: int, j: int|
            0 <= i < joined.len() && 0 <= j < joined.len() && i != j implies joined[i]
            != joined[j] by {
            if i < names.len() {
                assert(joined[i] == names[i]);
            }
            if j < names.len() {
                assert(joined[j] == names[j]);
            }
        }
    }
}

/// A quit keeps the names distinct, leaves the name absent, and makes the
/// count one smaller if the name was present, and no smaller if it was not.
pub proof fn lemma_quit_counts_once(names: Seq<Seq<char>>, name: Seq<char>)
    requires
        names.no_duplicates(),
    ensures
        without_name(names, name).no_duplicates(),
        !without_name(names, name).contains(name),
        without_name(names, name).len() == names.len() - if names.contains(name) {
            1int
        } else {
            0int
        },
{
    lemma_without_excludes(names, name);
    if names.contains(name) {
        let at = names.index_of(name);
        lemma_without_at(names, at);
        let rest = names.remove(at);
        assert forall|i: int, j: int|
            0 <= i < rest.len() && 0 <= j < rest.len() && i != j implies rest[i] != rest[j] by {
            let from_i = if i < at {
                i
            } else {
                i + 1
            };
            let from_j = if j < at {
                j
            } else {
                j + 1
            };
            assert(rest[i] == names[from_i] && rest[j] == names[from_j]);
        }
    } else {
        lemma_without_absent(names, name);
    }
}

/// A second quit of the same name changes nothing.
pub proof fn lemma_quit_twice(names: Seq<Seq<char>>, name: Seq<char>)
    ensures
        without_name(without_name(names, name), name) == without_name(names, name),
{
    lemma_without_excludes(names, name);
    lemma_without_absent(without_name(names, name), name);
}

/// The players that are online, in the order in which they joined.
pub struct Presence {
    names: Vec<String>,
}

impl View for Presence {
    type V = Seq<Seq<char>>;

    closed spec fn view(&self) -> Seq<Seq<char>> {
        self.names.deep_view()
    }
}

/// The position of `name` among `names`, if it is there.
fn position(names: &Vec<String>, name: &String) -> (at: Option<usize>)
    ensures
        match at {
            Some(i) => i < names.len() && names.deep_view()[i as int] == name@,
            None => !names.deep_view().contains(name@),
        },
{
    let mut i: usize = 0;
    while i < names.len()
        invariant
            i <= names.len(),
            forall|j: int| 0 <= j < i ==> names.deep_view()[j] != name@,
        decreases names.len() - i,
    {
        if names[i] == *name {
            return Some(i);
        }
        i += 1;
    }
    None
}

impl Presence {
    #[verifier::type_invariant]
    spec fn distinct(self) -> bool {
        self.names.deep_view().no_duplicates()
    }

    /// Nobody is online.
    pub fn new() -> (presence: Presence)
        ensures
            presence@ == Seq::<Seq<char>>::empty(),
    {
        let presence = Presence { names: Vec::new() };
        assert(presence.names.deep_view() =~= Seq::<Seq<char>>::empty());
        presence
    }

    /// The number of players online.
    pub fn count(&self) -> (count: usize)
        ensures
            count == self@.len(),
    {
        self.names.len()
    }

    /// Whether `name` is online.
    pub fn contains(&self, name: &str) -> (present: bool)
        ensures
            present == self@.contains(name@),
    {
        let name = String::from_str(name);
        position(&self.names, &name).is_some()
    }

    /// Records that `name` has joined. A name that is already present stays
    /// where it is.
    pub fn record_join(&mut self, name: &str)
        ensures
            final(self)@ == with_name(old(self)@, name@),
    {
        proof {
            use_type_invariant(&*self);
        }
        let name = String::from_str(name);
        if position(&self.names, &name).is_none() {
            let mut names: Vec<String> = Vec::new();
            std::mem::swap(&mut names, &mut self.names);
            let ghost before = names.deep_view();
            names.push(name);
            assert(names.deep_view() =~= before.push(name@));
            self.names = names;
        }
    }

    /// Records that `name` has left. A name that is not present leaves
    /// nothing changed.
    pub fn record_quit(&mut self, name: &str)
        ensures
            final(self)@ == without_name(old(self)@, name@),
    {
        proof {
            use_type_invariant(&*self);
        }
        let name = String::from_str(name);
        match position(&self.names, &name) {
            Some(at) => {
                let mut names: Vec<String> = Vec::new();
                std::mem::swap(&mut names, &mut self.names);
                let ghost before = names.deep_view();
                names.remove(at);
                proof {
                    assert(names.deep_view() =~= before.remove(at as int));
                    lemma_without_at(before, at as int);
                }
                self.names = names;
            },
            None => {
                proof {
                    lemma_without_absent(self@, name@);
                }
            },
        }
    }

    /// The number of players online and their names, joined by
    /// [`NAME_SEPARATOR`] in the order in which they joined.
    pub fn snapshot(&self) -> (snapshot: (usize, String))
        ensures
            snapshot.0 == self@.len(),
            snapshot.1@ == joined(self@, NAME_SEPARATOR@),
            self@.no_duplicates(),
    {
        proof {
            use_type_invariant(&*self);
        }
        (self.names.len(), join_strings(&self.names, NAME_SEPARATOR))
    }
}

} // verus!

//! The list of projects that a task may belong to.

use crate::text::{ascending, join, joined, sort_texts, split, split_on, texts, trim, trimmed};
use vstd::prelude::*;
use vstd::string::*;

verus! {

/// The names of the projects, in the order in which they were read or added.
#[derive(Clone, Debug)]
pub struct Projects {
    inner: Vec<String>,
}

/// `list` without the first of its entries that equals `name`.
pub open spec fn without_first(list: Seq<Seq<char>>, name: Seq<char>) -> Seq<Seq<char>>
    decreases list.len(),
{
    if list.len() == 0 {
        list
    } else if list[0] == name {
        list.drop_first()
    } else {
        seq![list[0]] + without_first(list.drop_first(), name)
    }
}

/// The entries of `list` that are not empty, in order.
pub open spec fn named(list: Seq<Seq<char>>) -> Seq<Seq<char>>
    decreases list.len(),
{
    if list.len() == 0 {
        list
    } else if list.last().len() == 0 {
        named(list.drop_last())
    } else {
        named(list.drop_last()).push(list.last())
    }
}

/// Whether `text` is a stored form of `names`: the names that are not empty,
/// each as often as it occurs, in ascending order with commas between them.
pub open spec fn is_stored_form(names: Seq<Seq<char>>, text: Seq<char>) -> bool {
    exists|order: Seq<Seq<char>>|
        ascending(order) && order.to_multiset() == named(names).to_multiset() && text == #[trigger] joined(
            order,
            ","@,
        )
}

impl View for Projects {
    type V = Seq<Seq<char>>;

    closed spec fn view(&self) -> Seq<Seq<char>> {
        texts(self.inner@)
    }
}

impl Projects {
    /// The names of the projects.
    pub fn get(&self) -> (names: &Vec<String>)
        ensures
            texts(names@) == self@,
    {
        &self.inner
    }

    /// Reads the list from its stored form: names with commas between them,
    /// each taken without the white space around it.
    pub fn new(stored: &str) -> (projects: Projects)
        ensures
            projects@ == split_on(stored@, ',').map_values(|piece: Seq<char>| trimmed(piece)),
    {
        let pieces = split(stored, ',');
        let mut inner: Vec<String> = Vec::new();
        let mut at: usize = 0;
        while at < pieces.len()
            invariant
                at <= pieces.len(),
                inner@.len() == at,
                forall|i: int| 0 <= i < at ==> (#[trigger] inner@[i])@ == trimmed(pieces@[i]@),
            decreases pieces.len() - at,
        {
            inner.push(trim(pieces[at].as_str()));
            at = at + 1;
        }
        assert(texts(inner@) =~= split_on(stored@, ',').map_values(
            |piece: Seq<char>| trimmed(piece),
        ));
        Projects { inner }
    }

    /// Whether a project of this name is in the list.
    pub fn contains(&self, name: &str) -> (found: bool)
        ensures
            found == self@.contains(name@),
    {
        self.position(name).is_some()
    }

    /// The place of the first project of this name.
    fn position(&self, name: &str) -> (place: Option<usize>)
        ensures
            match place {
                Some(i) => i < self@.len() && self@[i as int] == name@ && forall|j: int|
                    0 <= j < i ==> self@[j] != name@,
                None => !self@.contains(name@),
            },
    {
        let mut at: usize = 0;
        while at < self.inner.len()
            invariant
                at <= self.inner.len(),
                forall|j: int| 0 <= j < at ==> self@[j] != name@,
            decreases self.inner.len() - at,
        {
            if self.inner[at].as_str().eq(name) {
                return Some(at);
            }
            at = at + 1;
        }
        None
    }

    /// Adds a project at the end of the list, unless one of this name is in
    /// it; tells whether it was added.
    pub fn add(&mut self, name: &str) -> (added: bool)
        ensures
            added == !old(self)@.contains(name@),
            final(self)@ == (if added {
                old(self)@.push(name@)
            } else {
                old(self)@
            }),
    {
        if self.contains(name) {
            false
        } else {
            self.inner.push(String::from_str(name));
            true
        }
    }

    /// Takes the first project of this name out of the list; tells whether
    /// there was one.
    pub fn delete(&mut self, name: &str) -> (deleted: bool)
        ensures
            deleted == old(self)@.contains(name@),
            final(self)@ == without_first(old(self)@, name@),
    {
        match self.position(name) {
            Some(at) => {
                let _ = self.inner.remove(at);
                proof {
                    lemma_without_first(old(self)@, name@, at as int);
                }
                true
            },
            None => {
                proof {
                    lemma_without_absent(old(self)@, name@);
                }
                false
            },
        }
    }

    /// The stored form of the list: the names that are not empty, sorted,
    /// with commas between them.
    pub fn save(&self) -> (stored: String)
        ensures
            is_stored_form(self@, stored@),
    {
        let mut kept: Vec<String> = Vec::new();
        let mut at: usize = 0;
        while at < self.inner.len()
            invariant
                at <= self.inner.len(),
                texts(kept@) == named(self@.take(at as int)),
            decreases self.inner.len() - at,
        {
            assert(self@.take(at as int + 1).drop_last() =~= self@.take(at as int));
            if !self.inner[at].as_str().is_empty() {
                kept.push(self.inner[at].clone());
            }
            at = at + 1;
        }
        assert(self@.take(at as int) =~= self@);
        sort_texts(&mut kept);
        let stored = join(&kept, ",");
        stored
    }
}

/// Taking out the first entry that equals `name` removes the entry at the
/// place where `name` first stands.
proof fn lemma_without_first(list: Seq<Seq<char>>, name: Seq<char>, at: int)
    requires
        0 <= at < list.len(),
        list[at] == name,
        forall|j: int| 0 <= j < at ==> list[j] != name,
    ensures
        without_first(list, name) == list.remove(at),
    decreases list.len(),
{
    if at > 0 {
        let rest = list.drop_first();
        lemma_without_first(rest, name, at - 1);
    }
}

/// Where `name` does not occur there is nothing to take out.
proof fn lemma_without_absent(list: Seq<Seq<char>>, name: Seq<char>)
    requires
        !list.contains(name),
    ensures
        without_first(list, name) == list,
    decreases list.len(),
{
    if list.len() > 0 {
        let rest = list.drop_first();
        lemma_without_absent(rest, name);
    }
}

} // verus!

//! A set of strings that remembers the order in which they came.

use crate::text::{same_text, texts};
use vstd::prelude::*;

verus! {

/// A finite set of strings. No string is held twice.
#[derive(Debug)]
pub struct StringSet {
    items: Vec<String>,
}

impl View for StringSet {
    type V = Set<Seq<char>>;

    closed spec fn view(&self) -> Set<Seq<char>> {
        texts(self.items@).to_set()
    }
}

impl Clone for StringSet {
    fn clone(&self) -> (copy: Self)
        ensures
            copy@ == self@,
            copy.order() == self.order(),
    {
        proof {
            use_type_invariant(self);
        }
        StringSet { items: crate::text::copy_texts(&self.items) }
    }
}

impl StringSet {
    #[verifier::type_invariant]
    spec fn distinct(self) -> bool {
        texts(self.items@).no_duplicates()
    }

    /// The members in the order in which they were first inserted.
    pub closed spec fn order(&self) -> Seq<Seq<char>> {
        texts(self.items@)
    }

    /// The empty set.
    pub fn new() -> (set: Self)
        ensures
            set@ == Set::<Seq<char>>::empty(),
            set.order() == Seq::<Seq<char>>::empty(),
    {
        let set = StringSet { items: Vec::new() };
        set
    }

    /// Whether `item` is a member.
    pub fn contains(&self, item: &str) -> (found: bool)
        ensures
            found == self@.contains(item@),
    {
        let mut i: usize = 0;
        while i < self.items.len()
            invariant
                i <= self.items.len(),
                forall|j: int| 0 <= j < i ==> texts(self.items@)[j] != item@,
            decreases self.items.len() - i,
        {
            if same_text(self.items[i].as_str(), item) {
                assert(texts(self.items@)[i as int] == item@);
                return true;
            }
            i += 1;
        }
        false
    }

    /// Makes `item` a member. A string that is a member already stays where it
    /// is; a new one comes last. Returns whether the string was new.
    pub fn insert(self, item: String) -> (result: (Self, bool))
        ensures
            result.0@ == self@.insert(item@),
            result.1 == !self@.contains(item@),
            result.0.order() == if self@.contains(item@) {
                self.order()
            } else {
                self.order().push(item@)
            },
    {
        proof {
            use_type_invariant(&self);
        }
        if self.contains(item.as_str()) {
            (self, false)
        } else {
            let ghost before = texts(self.items@);
            let mut items = self.items;
            items.push(item);
            assert(texts(items@) =~= before.push(item@));
            proof {
                before.lemma_push_to_set_commute(item@);
            }
            (StringSet { items }, true)
        }
    }

    /// The number of members.
    pub fn len(&self) -> (count: usize)
        ensures
            count == self@.len(),
    {
        proof {
            use_type_invariant(self);
            texts(self.items@).unique_seq_to_set();
        }
        self.items.len()
    }

    /// The members in the order in which they were first inserted.
    pub fn to_vec(&self) -> (members: Vec<String>)
        ensures
            texts(members@) == self.order(),
            self.order().no_duplicates(),
            self.order().to_set() == self@,
    {
        proof {
            use_type_invariant(self);
        }
        crate::text::copy_texts(&self.items)
    }

}

} // verus!

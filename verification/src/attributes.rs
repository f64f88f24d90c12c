//! Attributes that are added to generated `mod` and `struct` items.

use crate::text::{copy_pairs, text_pairs};
use vstd::prelude::*;

verus! {

/// Attributes for generated items, each with the pattern that selects the
/// items it goes on. Entries are only ever appended.
#[derive(Debug, PartialEq, Eq)]
pub struct Attributes {
    /// `(pattern, attribute)` for `mod` items, matched on the package name.
    pub module: Vec<(String, String)>,
    /// `(pattern, attribute)` for `struct` items, matched on the service name.
    pub structure: Vec<(String, String)>,
}

/// The entries of an [`Attributes`] as text.
pub struct AttributesView {
    pub module: Seq<(Seq<char>, Seq<char>)>,
    pub structure: Seq<(Seq<char>, Seq<char>)>,
}

impl View for Attributes {
    type V = AttributesView;

    open spec fn view(&self) -> AttributesView {
        AttributesView {
            module: text_pairs(self.module@),
            structure: text_pairs(self.structure@),
        }
    }
}

impl Default for Attributes {
    fn default() -> (attributes: Self)
        ensures
            attributes@.module == Seq::<(Seq<char>, Seq<char>)>::empty(),
            attributes@.structure == Seq::<(Seq<char>, Seq<char>)>::empty(),
    {
        let attributes = Attributes { module: Vec::new(), structure: Vec::new() };
        attributes
    }
}

impl Clone for Attributes {
    fn clone(&self) -> (copy: Self)
        ensures
            copy@ == self@,
    {
        Attributes { module: copy_pairs(&self.module), structure: copy_pairs(&self.structure) }
    }
}

impl Attributes {
    /// Adds an attribute for the `mod` items that match `pattern`.
    pub fn push_mod(&mut self, pattern: String, attr: String)
        ensures
            final(self)@.module == old(self)@.module.push((pattern@, attr@)),
            final(self)@.structure == old(self)@.structure,
    {
        self.module.push((pattern, attr));
    }

    /// Adds an attribute for the `struct` items that match `pattern`.
    pub fn push_struct(&mut self, pattern: String, attr: String)
        ensures
            final(self)@.structure == old(self)@.structure.push((pattern@, attr@)),
            final(self)@.module == old(self)@.module,
    {
        self.structure.push((pattern, attr));
    }

}

} // verus!

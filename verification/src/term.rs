//! The host value: what a decoded tree becomes.

use vstd::prelude::*;

verus! {

/// A value of the host, written as plain data.
///
/// A float is held as its IEEE 754 bit pattern, so that the tree can be
/// compared and reasoned about exactly.
#[derive(Debug, PartialEq, Eq)]
pub enum Term {
    /// The host's "no value".
    Nil,
    Bool(bool),
    /// An integer that fits in 64 signed bits.
    Int(i64),
    /// An integer above the signed range.
    UInt(u64),
    /// A 64-bit float, as its bit pattern.
    Float(u64),
    Str(String),
    /// An ordered list.
    List(Vec<Term>),
    /// A map, as its entries. No key occurs twice in a well-formed map.
    Mapping(Vec<(String, Term)>),
}

/// The mathematical value of a [`Term`].
pub enum TermView {
    Nil,
    Bool(bool),
    Int(i64),
    UInt(u64),
    Float(u64),
    Str(Seq<char>),
    List(Seq<TermView>),
    /// The keys of a map and, index by index, their values.
    Mapping(Seq<Seq<char>>, Seq<TermView>),
}

impl TermView {
    /// Every map in the value has as many keys as values, and no key twice.
    pub open spec fn well_formed(self) -> bool
        decreases self,
    {
        match self {
            TermView::List(items) => forall|i: int|
                0 <= i < items.len() ==> (#[trigger] items[i]).well_formed(),
            TermView::Mapping(keys, values) => {
                &&& keys.len() == values.len()
                &&& keys.no_duplicates()
                &&& forall|i: int| 0 <= i < values.len() ==> (#[trigger] values[i]).well_formed()
            },
            _ => true,
        }
    }
}

impl View for Term {
    type V = TermView;

    open spec fn view(&self) -> TermView
        decreases self,
    {
        match self {
            Term::Nil => TermView::Nil,
            Term::Bool(b) => TermView::Bool(*b),
            Term::Int(n) => TermView::Int(*n),
            Term::UInt(n) => TermView::UInt(*n),
            Term::Float(bits) => TermView::Float(*bits),
            Term::Str(s) => TermView::Str(s@),
            Term::List(items) => TermView::List(
                Seq::new(
                    items@.len(),
                    |i: int|
                        if 0 <= i < items@.len() {
                            items@[i].view()
                        } else {
                            TermView::Nil
                        },
                ),
            ),
            Term::Mapping(entries) => TermView::Mapping(
                Seq::new(entries@.len(), |i: int| entries@[i].0@),
                Seq::new(
                    entries@.len(),
                    |i: int|
                        if 0 <= i < entries@.len() {
                            entries@[i].1.view()
                        } else {
                            TermView::Nil
                        },
                ),
            ),
        }
    }
}

impl Term {
    /// Every map in the term has each of its keys once.
    pub open spec fn wf(&self) -> bool {
        self@.well_formed()
    }

    /// Whether the term is a map.
    pub fn is_mapping(&self) -> (r: bool)
        ensures
            r == (self@ is Mapping),
    {
        match self {
            Term::Mapping(_) => true,
            _ => false,
        }
    }
}

} // verus!

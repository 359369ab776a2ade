//! Indices usable on a `TermString`: a position gives a grapheme, a range of
//! positions gives a `TermString`.

use crate::string::{TermGrapheme, TermString};
use core::ops::Range;
use vstd::prelude::*;

verus! {

/// Specifies usable indices for a `TermString`.
pub trait Index: Sized {
    /// Output of the indexing operation.
    type Output: View;

    /// Whether the index is within the bounds of a string with `count`
    /// graphemes.
    spec fn in_bounds(&self, count: nat) -> bool;

    /// The view of what the index selects in a string with the given
    /// graphemes.
    spec fn selected(&self, graphemes: Seq<Seq<char>>) -> <Self::Output as View>::V;

    /// Tries to index the `TermString` and returns `None` if out of bounds.
    fn get(self, term_string: &TermString) -> (r: Option<Self::Output>)
        ensures
            r is Some <==> self.in_bounds(term_string@.len()),
            r matches Some(out) ==> out@ == self.selected(term_string@),
    ;

    /// Indexes the `TermString`; the index must be in bounds.
    fn index(self, term_string: &TermString) -> (r: Self::Output)
        requires
            self.in_bounds(term_string@.len()),
        ensures
            r@ == self.selected(term_string@),
    ;
}

impl Index for usize {
    type Output = TermGrapheme;

    open spec fn in_bounds(&self, count: nat) -> bool {
        *self < count
    }

    open spec fn selected(&self, graphemes: Seq<Seq<char>>) -> Seq<char> {
        graphemes[*self as int]
    }

    fn get(self, term_string: &TermString) -> (r: Option<TermGrapheme>) {
        if self < term_string.count_graphemes() {
            Some(term_string.grapheme_at(self).clone())
        } else {
            None
        }
    }

    fn index(self, term_string: &TermString) -> (r: TermGrapheme) {
        term_string.grapheme_at(self).clone()
    }
}

/// The end of the graphemes a range selects: a range never selects less than
/// the grapheme at its start.
pub open spec fn range_end(start: int, end: int) -> int {
    if end <= start + 1 {
        start + 1
    } else {
        end
    }
}

impl Index for Range<usize> {
    type Output = TermString;

    /// The start must hold a grapheme, and so must every position before the
    /// end.
    open spec fn in_bounds(&self, count: nat) -> bool {
        self.start < count && range_end(self.start as int, self.end as int) <= count
    }

    open spec fn selected(&self, graphemes: Seq<Seq<char>>) -> Seq<Seq<char>> {
        graphemes.subrange(self.start as int, range_end(self.start as int, self.end as int))
    }

    fn get(self, term_string: &TermString) -> (r: Option<TermString>) {
        let count = term_string.count_graphemes();
        if self.start < count {
            let end = if self.end <= self.start + 1 {
                self.start + 1
            } else {
                self.end
            };
            if end <= count {
                Some(term_string.slice(self.start, end))
            } else {
                None
            }
        } else {
            None
        }
    }

    fn index(self, term_string: &TermString) -> (r: TermString) {
        let _count = term_string.count_graphemes();
        let end = if self.end <= self.start + 1 {
            self.start + 1
        } else {
            self.end
        };
        term_string.slice(self.start, end)
    }
}

} // verus!

//! When two links are the same, and which comes first in a sorted report:
//! links go by file, then by line, then by text.

use crate::link::{Link, LinkView};
use crate::text::{
    compare_text, lemma_text_order_total, lemma_text_order_transitive, text_less, Side,
};
use core::cmp::Ordering;
use vstd::prelude::*;
use vstd::std_specs::cmp::{PartialEqSpecImpl, PartialOrdSpecImpl};

verus! {

/// Whether two links stand at the same place with the same text. What is
/// known of them does not count.
pub open spec fn same_link(a: LinkView, b: LinkView) -> bool {
    a.file == b.file && a.lnum == b.lnum && a.raw == b.raw
}

/// Whether `a` comes before `b`.
pub open spec fn link_before(a: LinkView, b: LinkView) -> bool {
    ||| text_less(a.file, b.file)
    ||| a.file == b.file && a.lnum < b.lnum
    ||| a.file == b.file && a.lnum == b.lnum && text_less(a.raw, b.raw)
}

impl PartialEq for Link {
    fn eq(&self, other: &Link) -> (same: bool) {
        *self.file == *other.file && self.lnum == other.lnum && self.raw == other.raw
    }
}

impl PartialEqSpecImpl for Link {
    open spec fn obeys_eq_spec() -> bool {
        true
    }

    open spec fn eq_spec(&self, other: &Link) -> bool {
        same_link(self@, other@)
    }
}

impl PartialOrd for Link {
    fn partial_cmp(&self, other: &Link) -> (order: Option<Ordering>) {
        match compare_text(self.file.as_str(), other.file.as_str()) {
            Side::Before => Some(Ordering::Less),
            Side::After => Some(Ordering::Greater),
            Side::Same => if self.lnum < other.lnum {
                Some(Ordering::Less)
            } else if self.lnum > other.lnum {
                Some(Ordering::Greater)
            } else {
                match compare_text(self.raw.as_str(), other.raw.as_str()) {
                    Side::Before => Some(Ordering::Less),
                    Side::After => Some(Ordering::Greater),
                    Side::Same => Some(Ordering::Equal),
                }
            },
        }
    }
}

impl PartialOrdSpecImpl for Link {
    open spec fn obeys_partial_cmp_spec() -> bool {
        true
    }

    open spec fn partial_cmp_spec(&self, other: &Link) -> Option<Ordering> {
        if same_link(self@, other@) {
            Some(Ordering::Equal)
        } else if link_before(self@, other@) {
            Some(Ordering::Less)
        } else {
            Some(Ordering::Greater)
        }
    }
}

/// Links are in one order: of two links that are not the same, one comes
/// before the other, and never both ways.
pub proof fn lemma_link_order_total(a: LinkView, b: LinkView)
    ensures
        same_link(a, b) || link_before(a, b) || link_before(b, a),
        !(same_link(a, b) && link_before(a, b)),
        !(link_before(a, b) && link_before(b, a)),
{
    lemma_text_order_total(a.file, b.file);
    lemma_text_order_total(a.raw, b.raw);
}

/// What comes before a link that comes before a third comes before the
/// third, so that sorting links gives one result.
pub proof fn lemma_link_order_transitive(a: LinkView, b: LinkView, c: LinkView)
    requires
        link_before(a, b),
        link_before(b, c),
    ensures
        link_before(a, c),
{
    if text_less(a.file, b.file) && text_less(b.file, c.file) {
        lemma_text_order_transitive(a.file, b.file, c.file);
    } else if a.file == b.file && b.file == c.file && a.lnum == b.lnum && b.lnum == c.lnum {
        lemma_text_order_transitive(a.raw, b.raw, c.raw);
    }
}

} // verus!

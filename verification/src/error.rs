//! What can go wrong when a text is searched.

use crate::text::{decimal, decimal_text, joined};
use vstd::prelude::*;

verus! {

/// Why a text could not be searched.
#[derive(Clone, Debug, PartialEq, Eq)]
pub enum ScanError {
    /// The pattern is no regular expression; the text says why.
    Pattern(String),
    /// The text could not be read as lines; the text says why.
    Search(String),
    /// The pattern matched on the line of this number, and the group that
    /// is to capture the target captured nothing there.
    Group(u64),
}

/// The mathematical value of a [`ScanError`].
pub enum ScanFault {
    Pattern(Seq<char>),
    Search(Seq<char>),
    Group(u64),
}

impl View for ScanError {
    type V = ScanFault;

    open spec fn view(&self) -> ScanFault {
        match *self {
            ScanError::Pattern(detail) => ScanFault::Pattern(detail@),
            ScanError::Search(detail) => ScanFault::Search(detail@),
            ScanError::Group(lnum) => ScanFault::Group(lnum),
        }
    }
}

/// The text that says why a search failed.
pub open spec fn fault_text(fault: ScanFault) -> Seq<char> {
    match fault {
        ScanFault::Pattern(detail) => detail,
        ScanFault::Search(detail) => detail,
        ScanFault::Group(lnum) => "no target captured on line "@ + decimal_text(lnum as nat),
    }
}

impl ScanError {
    /// The text that says why.
    pub fn detail(self) -> (text: String)
        ensures
            text@ == fault_text(self@),
    {
        match self {
            ScanError::Pattern(detail) => detail,
            ScanError::Search(detail) => detail,
            ScanError::Group(lnum) => {
                let number = decimal(lnum);
                joined("no target captured on line ", number.as_str())
            },
        }
    }
}

} // verus!

//! Resolving a link, step by step.
//!
//! Nothing here touches the network or the file system. A [`Stage`] says
//! what has to be asked of the outside world next; the caller asks, and hands
//! the answer back as an [`Event`]; [`Stage::advance`] decides what follows.

use crate::error::{fault_text, ScanError, ScanFault};
use crate::link::{section_split, Link, LinkKind, LinkStatus, LinkView, Outcome};
use crate::text::{decimal, decimal_text, hyphens_to_spaces, joined, replace_hyphens};
use crate::trusted::{
    join_paths, matching_lines, parent_of, path_join, path_parent, regex_error, search_lines,
};
use vstd::prelude::*;

verus! {

/// Where the resolution of a link stands.
#[derive(Clone, Debug, PartialEq, Eq)]
pub enum Stage {
    /// A HEAD request to `url` is to be made.
    Head { url: String },
    /// It is to be found out whether `target` exists. `section` is what will
    /// be looked for in it afterwards, if anything.
    Exists { target: String, section: Option<String> },
    /// The file `path` is to be read, to look for the section `name` in it.
    /// `own` says that it is the file that holds the link.
    Read { path: String, name: String, own: bool },
    /// Nothing is left to ask.
    Done(LinkStatus),
}

/// The mathematical value of a [`Stage`].
pub enum StageView {
    Head { url: Seq<char> },
    Exists { target: Seq<char>, section: Option<Seq<char>> },
    Read { path: Seq<char>, name: Seq<char>, own: bool },
    Done(Outcome),
}

impl View for Stage {
    type V = StageView;

    open spec fn view(&self) -> StageView {
        match *self {
            Stage::Head { url } => StageView::Head { url: url@ },
            Stage::Exists { target, section: Some(section) } => StageView::Exists {
                target: target@,
                section: Some(section@),
            },
            Stage::Exists { target, section: None } => StageView::Exists {
                target: target@,
                section: None,
            },
            Stage::Read { path, name, own } => StageView::Read { path: path@, name: name@, own },
            Stage::Done(status) => StageView::Done(status@),
        }
    }
}

/// What the outside world answered.
#[derive(Clone, Debug, PartialEq, Eq)]
pub enum Event {
    /// The server answered the request with this status code.
    Response(u16),
    /// The request ran out of time.
    TimedOut,
    /// The request failed in some other way.
    Failed,
    /// Whether the target exists.
    Exists(bool),
    /// The bytes of the file.
    Contents(Vec<u8>),
    /// The file could not be read; the text says why.
    Unreadable(String),
}

/// The mathematical value of an [`Event`].
pub enum EventView {
    Response(u16),
    TimedOut,
    Failed,
    Exists(bool),
    Contents(Seq<u8>),
    Unreadable(Seq<char>),
}

impl View for Event {
    type V = EventView;

    open spec fn view(&self) -> EventView {
        match *self {
            Event::Response(code) => EventView::Response(code),
            Event::TimedOut => EventView::TimedOut,
            Event::Failed => EventView::Failed,
            Event::Exists(found) => EventView::Exists(found),
            Event::Contents(bytes) => EventView::Contents(bytes@),
            Event::Unreadable(detail) => EventView::Unreadable(detail@),
        }
    }
}

/// The reason given with a status code.
pub open spec fn status_text(code: u16) -> Seq<char> {
    "received status code "@ + decimal_text(code as nat)
}

/// Whether a server that answers with `code` leaves it open if the resource
/// is there: it asks for a login, refuses the method, or cannot serve what
/// the request accepts.
pub open spec fn is_gated(code: u16) -> bool {
    code == 401 || code == 403 || code == 405 || code == 406
}

/// What a status code says of a link.
pub open spec fn http_outcome(code: u16) -> Outcome {
    if (200 <= code && code < 300) || code == 302 {
        Outcome::Reachable
    } else if is_gated(code) {
        Outcome::Questionable(status_text(code))
    } else {
        Outcome::Unreachable(Some(status_text(code)))
    }
}

/// How the reason begins when a search for `section` failed, up to and
/// including the space in front of the detail.
pub open spec fn search_failure_prefix(section: Seq<char>, own: bool) -> Seq<char> {
    (if own {
        "failed to find section #"@
    } else {
        "failed to resolve section #"@
    }) + section + " "@
}

/// What the search for a section says of a link. `found` is the result of
/// the search, or the detail of its failure.
pub open spec fn section_outcome(section: Seq<char>, own: bool, found: Result<bool, Seq<char>>)
    -> Outcome {
    match found {
        Ok(true) => Outcome::Reachable,
        Ok(false) => Outcome::Questionable("failed to resolve section #"@ + section),
        Err(detail) => Outcome::Questionable(search_failure_prefix(section, own) + detail),
    }
}

/// Whether some line of `text` holds `section`, written with spaces for
/// hyphens, in upper or lower case. The search fails where the name is no
/// pattern to search for, and where the lines cannot be had.
pub open spec fn section_found(text: Seq<u8>, section: Seq<char>) -> Result<bool, ScanFault> {
    match regex_error(hyphens_to_spaces(section), true) {
        Some(detail) => Err(ScanFault::Pattern(detail)),
        None => match matching_lines(hyphens_to_spaces(section), true, text) {
            Ok(list) => Ok(list.len() > 0),
            Err(detail) => Err(ScanFault::Search(detail)),
        },
    }
}

/// The result of a search for a section, as a mathematical value.
pub open spec fn found_view(res: Result<bool, ScanError>) -> Result<bool, ScanFault> {
    match res {
        Ok(found) => Ok(found),
        Err(e) => Err(e@),
    }
}

/// What a search for a section came to, with the words of its failure in
/// place of the failure.
pub open spec fn found_or_why(res: Result<bool, ScanFault>) -> Result<bool, Seq<char>> {
    match res {
        Ok(found) => Ok(found),
        Err(fault) => Err(fault_text(fault)),
    }
}

/// The directory of a file: its parent, or the current directory where it
/// has none.
pub open spec fn directory_of(file: Seq<char>) -> Seq<char> {
    match path_parent(file) {
        Some(dir) => dir,
        None => "./"@,
    }
}

/// Where the resolution of a link begins. A link of which something is
/// known already is done at once, with what is known.
pub open spec fn first_stage(link: LinkView) -> StageView {
    match link.status {
        Some(outcome) => StageView::Done(outcome),
        None => match link.kind {
            LinkKind::Http => StageView::Head { url: link.raw },
            LinkKind::Local => match section_split(link.raw) {
                (Some(base), section) => StageView::Exists {
                    target: path_join(directory_of(link.file), base),
                    section,
                },
                (None, Some(section)) => StageView::Read { path: link.file, name: section, own: true },
                (None, None) => StageView::Done(Outcome::Unreachable(None)),
            },
        },
    }
}

/// Whether `event` is an answer to what `stage` asks.
pub open spec fn answers(stage: StageView, event: EventView) -> bool {
    match stage {
        StageView::Head { .. } => event is Response || event is TimedOut || event is Failed,
        StageView::Exists { .. } => event is Exists,
        StageView::Read { .. } => event is Contents || event is Unreadable,
        StageView::Done(_) => false,
    }
}

/// The stage that follows `stage` on `event`. An event that does not
/// answer what the stage asks changes nothing.
pub open spec fn next_stage(stage: StageView, event: EventView) -> StageView {
    match (stage, event) {
        (StageView::Head { .. }, EventView::Response(code)) => StageView::Done(
            http_outcome(code),
        ),
        (StageView::Head { .. }, EventView::TimedOut) => StageView::Done(
            Outcome::Unreachable(Some("timeout"@)),
        ),
        (StageView::Head { .. }, EventView::Failed) => StageView::Done(
            Outcome::Unreachable(None),
        ),
        (StageView::Exists { .. }, EventView::Exists(false)) => StageView::Done(
            Outcome::Unreachable(None),
        ),
        (StageView::Exists { target, section: None }, EventView::Exists(true)) => StageView::Done(
            Outcome::Reachable,
        ),
        (
            StageView::Exists { target, section: Some(section) },
            EventView::Exists(true),
        ) => StageView::Read { path: target, name: section, own: false },
        (StageView::Read { path, name, own }, EventView::Contents(text)) => StageView::Done(
            section_outcome(name, own, found_or_why(section_found(text, name))),
        ),
        (StageView::Read { path, name, own }, EventView::Unreadable(detail)) => StageView::Done(
            section_outcome(name, own, Err(detail)),
        ),
        _ => stage,
    }
}

/// How many answers a stage may still need.
pub open spec fn steps_left(stage: StageView) -> nat {
    match stage {
        StageView::Head { .. } => 1,
        StageView::Exists { .. } => 2,
        StageView::Read { .. } => 1,
        StageView::Done(_) => 0,
    }
}

/// Judges the status code of a response.
pub fn http_status(code: u16) -> (status: LinkStatus)
    ensures
        status@ == http_outcome(code),
{
    if (200 <= code && code < 300) || code == 302 {
        LinkStatus::Reachable
    } else {
        let number = decimal(code as u64);
        let reason = joined("received status code ", number.as_str());
        if code == 401 || code == 403 || code == 405 || code == 406 {
            LinkStatus::Questionable(reason)
        } else {
            LinkStatus::Unreachable(Some(reason))
        }
    }
}

/// Judges the search for `section`. `found` is what the search returned, or
/// the detail of its failure; `own` says that the file searched is the one
/// that holds the link.
pub fn section_status(section: &str, own: bool, found: Result<bool, String>) -> (status: LinkStatus)
    ensures
        status@ == section_outcome(
            section@,
            own,
            match found {
                Ok(b) => Ok(b),
                Err(detail) => Err(detail@),
            },
        ),
{
    match found {
        Ok(true) => LinkStatus::Reachable,
        Ok(false) => LinkStatus::Questionable(joined("failed to resolve section #", section)),
        Err(detail) => {
            let mut reason = if own {
                joined("failed to find section #", section)
            } else {
                joined("failed to resolve section #", section)
            };
            reason.append(" ");
            reason.append(detail.as_str());
            LinkStatus::Questionable(reason)
        },
    }
}

impl Link {
    /// Looks for `section` in `text`, the contents of a file: hyphens of the
    /// name stand for spaces, and letters match in either case. The answer
    /// is `true` where some line holds the name. The search fails where
    /// the name is no pattern, or a line that holds it is not UTF-8.
    pub fn find_section(text: &[u8], section: &str) -> (res: Result<bool, ScanError>)
        ensures
            found_view(res) == section_found(text@, section@),
    {
        let term = replace_hyphens(section);
        match search_lines(term.as_str(), true, text) {
            Ok(list) => Ok(list.len() > 0),
            Err(e) => Err(e),
        }
    }

    /// The first thing to ask when resolving this link.
    pub fn begin(&self) -> (stage: Stage)
        ensures
            stage@ == first_stage(self@),
    {
        if let Some(status) = &self.status {
            return Stage::Done(status.duplicate());
        }
        match self.kind {
            LinkKind::Http => Stage::Head { url: self.raw.clone() },
            LinkKind::Local => {
                let (base, section) = self.split_section();
                match base {
                    Some(base) => {
                        let dir = match parent_of(self.file.as_str()) {
                            Some(dir) => dir,
                            None => String::from_str("./"),
                        };
                        let target = join_paths(dir.as_str(), base);
                        let section = match section {
                            Some(s) => Some(String::from_str(s)),
                            None => None,
                        };
                        Stage::Exists { target, section }
                    },
                    None => match section {
                        Some(s) => Stage::Read {
                            path: String::from_str(self.file.as_str()),
                            name: String::from_str(s),
                            own: true,
                        },
                        None => Stage::Done(LinkStatus::Unreachable(None)),
                    },
                }
            },
        }
    }
}

impl Stage {
    /// The stage that follows on `event`. An event that does not answer what
    /// the stage asks changes nothing.
    pub fn advance(self, event: Event) -> (next: Stage)
        ensures
            next@ == next_stage(self@, event@),
    {
        match self {
            Stage::Head { url } => match event {
                Event::Response(code) => Stage::Done(http_status(code)),
                Event::TimedOut => Stage::Done(
                    LinkStatus::Unreachable(Some(String::from_str("timeout"))),
                ),
                Event::Failed => Stage::Done(LinkStatus::Unreachable(None)),
                _ => Stage::Head { url },
            },
            Stage::Exists { target, section } => match event {
                Event::Exists(false) => Stage::Done(LinkStatus::Unreachable(None)),
                Event::Exists(true) => match section {
                    Some(section) => Stage::Read { path: target, name: section, own: false },
                    None => Stage::Done(LinkStatus::Reachable),
                },
                _ => Stage::Exists { target, section },
            },
            Stage::Read { path, name, own } => match event {
                Event::Contents(bytes) => {
                    let found = match Link::find_section(bytes.as_slice(), name.as_str()) {
                        Ok(found) => Ok(found),
                        Err(e) => Err(e.detail()),
                    };
                    Stage::Done(section_status(name.as_str(), own, found))
                },
                Event::Unreadable(detail) => Stage::Done(
                    section_status(name.as_str(), own, Err(detail)),
                ),
                _ => Stage::Read { path, name, own },
            },
            Stage::Done(status) => Stage::Done(status),
        }
    }
}

/// Every answer brings a resolution nearer its end: a local link is
/// resolved after two answers at most, any other after one.
pub proof fn lemma_resolution_ends(stage: StageView, event: EventView)
    requires
        answers(stage, event),
    ensures
        steps_left(next_stage(stage, event)) < steps_left(stage),
        steps_left(stage) <= 2,
{
}

/// A finished resolution stays finished, whatever arrives.
pub proof fn lemma_done_is_final(outcome: Outcome, event: EventView)
    ensures
        next_stage(StageView::Done(outcome), event) == StageView::Done(outcome),
{
}

} // verus!

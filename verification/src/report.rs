//! Counting what was found, and saying it.

use crate::link::{description, Link, LinkStatus, LinkView, Outcome};
use crate::log::Level;
use crate::text::{decimal, decimal_text, joined};
use vstd::prelude::*;

verus! {

/// The counts of a run: all links, those that are questionable (warnings)
/// and those that are unreachable (errors).
#[derive(Copy, Clone, Debug, PartialEq, Eq)]
pub struct Tally {
    pub links: u32,
    pub warnings: u32,
    pub errors: u32,
}

/// The mathematical value of a [`Tally`].
pub struct Counts {
    pub links: nat,
    pub warnings: nat,
    pub errors: nat,
}

impl View for Tally {
    type V = Counts;

    open spec fn view(&self) -> Counts {
        Counts {
            links: self.links as nat,
            warnings: self.warnings as nat,
            errors: self.errors as nat,
        }
    }
}

/// The counts after one more link with the given outcome.
pub open spec fn counted(counts: Counts, outcome: Outcome) -> Counts {
    match outcome {
        Outcome::Reachable => Counts { links: counts.links + 1, ..counts },
        Outcome::Questionable(_) => Counts {
            links: counts.links + 1,
            warnings: counts.warnings + 1,
            ..counts
        },
        Outcome::Unreachable(_) => Counts {
            links: counts.links + 1,
            errors: counts.errors + 1,
            ..counts
        },
    }
}

/// The counts of a whole run, its outcomes taken in the order of arrival.
pub open spec fn counts_of(outcomes: Seq<Outcome>) -> Counts
    decreases outcomes.len(),
{
    if outcomes.len() == 0 {
        Counts { links: 0, warnings: 0, errors: 0 }
    } else {
        counted(counts_of(outcomes.drop_last()), outcomes.last())
    }
}

/// How many of the outcomes are questionable.
pub open spec fn questionable_in(outcomes: Seq<Outcome>) -> nat
    decreases outcomes.len(),
{
    if outcomes.len() == 0 {
        0
    } else if outcomes.last() is Questionable {
        questionable_in(outcomes.drop_last()) + 1
    } else {
        questionable_in(outcomes.drop_last())
    }
}

/// How many of the outcomes are unreachable.
pub open spec fn unreachable_in(outcomes: Seq<Outcome>) -> nat
    decreases outcomes.len(),
{
    if outcomes.len() == 0 {
        0
    } else if outcomes.last() is Unreachable {
        unreachable_in(outcomes.drop_last()) + 1
    } else {
        unreachable_in(outcomes.drop_last())
    }
}

/// The exit status of a run: 1 where a link is unreachable, else 0.
pub open spec fn exit_status(counts: Counts) -> int {
    if counts.errors > 0 {
        1
    } else {
        0
    }
}

/// What follows a noun of which there are `n`.
pub open spec fn plural_suffix(n: nat) -> Seq<char> {
    if n == 1 {
        Seq::empty()
    } else {
        seq!['s']
    }
}

/// A count with its noun: "1 link", "2 links".
pub open spec fn count_text(n: nat, noun: Seq<char>) -> Seq<char> {
    decimal_text(n) + noun + plural_suffix(n)
}

/// The last line of a run.
pub open spec fn summary_text(counts: Counts) -> Seq<char> {
    if counts.links == 0 {
        "no links found"@
    } else {
        count_text(counts.errors, " error"@) + ", "@ + count_text(counts.warnings, " warning"@)
            + " out of "@ + count_text(counts.links, " link"@) + " found"@
    }
}

/// The level of a link's line in the report.
pub open spec fn report_level(outcome: Outcome) -> Level {
    match outcome {
        Outcome::Reachable => Level::INFO,
        Outcome::Questionable(_) => Level::WARNING,
        Outcome::Unreachable(_) => Level::ERROR,
    }
}

/// A link's line in the report: a mark, the link, and on a second line the
/// reason where there is one.
pub open spec fn report_text(link: LinkView, outcome: Outcome) -> Seq<char> {
    match outcome {
        Outcome::Reachable => "✓ "@ + description(link),
        Outcome::Questionable(reason) => "✗ "@ + description(link) + "\n        ► "@ + reason,
        Outcome::Unreachable(Some(reason)) => "✗ "@ + description(link) + "\n        ► "@
            + reason,
        Outcome::Unreachable(None) => "✗ "@ + description(link),
    }
}

/// The ending of a noun of which there are `n`: none for one, else "s".
pub fn maybe_pluralize(n: u32) -> (suffix: &'static str)
    ensures
        suffix@ == plural_suffix(n as nat),
{
    proof {
        reveal_strlit("");
        reveal_strlit("s");
    }
    let suffix = match n {
        1 => "",
        _ => "s",
    };
    assert(suffix@ =~= plural_suffix(n as nat));
    suffix
}

fn append_count(text: &mut String, n: u32, noun: &str)
    ensures
        final(text)@ == old(text)@ + count_text(n as nat, noun@),
{
    let number = decimal(n as u64);
    text.append(number.as_str());
    text.append(noun);
    text.append(maybe_pluralize(n));
    assert(text@ =~= old(text)@ + count_text(n as nat, noun@));
}

impl Tally {
    /// Whether the counts can be those of a run: no link is counted twice.
    pub open spec fn well_formed(&self) -> bool {
        self.warnings + self.errors <= self.links
    }

    /// The counts of a run in which nothing has arrived yet.
    pub fn new() -> (tally: Tally)
        ensures
            tally@ == counts_of(Seq::empty()),
            tally.well_formed(),
    {
        Tally { links: 0, warnings: 0, errors: 0 }
    }

    /// Counts one more link.
    pub fn record(&mut self, status: &LinkStatus)
        requires
            old(self).well_formed(),
            old(self).links < u32::MAX,
        ensures
            final(self)@ == counted(old(self)@, status@),
            final(self).well_formed(),
    {
        self.links = self.links + 1;
        match status {
            LinkStatus::Reachable => {},
            LinkStatus::Questionable(_) => {
                self.warnings = self.warnings + 1;
            },
            LinkStatus::Unreachable(_) => {
                self.errors = self.errors + 1;
            },
        }
    }

    /// The last line of the run.
    pub fn summary(&self) -> (text: String)
        ensures
            text@ == summary_text(self@),
    {
        if self.links == 0 {
            String::from_str("no links found")
        } else {
            let mut text = String::new();
            append_count(&mut text, self.errors, " error");
            text.append(", ");
            append_count(&mut text, self.warnings, " warning");
            text.append(" out of ");
            append_count(&mut text, self.links, " link");
            text.append(" found");
            assert(text@ =~= summary_text(self@));
            text
        }
    }

    /// The level of the last line: an error where a link is unreachable.
    pub fn summary_level(&self) -> (level: Level)
        ensures
            level == if self.errors > 0 {
                Level::ERROR
            } else {
                Level::INFO
            },
    {
        if self.errors > 0 {
            Level::ERROR
        } else {
            Level::INFO
        }
    }

    /// The exit status of the run.
    pub fn exit_code(&self) -> (code: i32)
        ensures
            code == exit_status(self@),
    {
        if self.errors > 0 {
            1
        } else {
            0
        }
    }
}

impl Link {
    /// This link's line in the report, and the level it is shown at.
    pub fn report(&self) -> (line: (Level, String))
        requires
            self@.status is Some,
        ensures
            line.0 == report_level(self@.status->Some_0),
            line.1@ == report_text(self@, self@.status->Some_0),
    {
        let named = self.describe();
        match self.status.as_ref().unwrap() {
            LinkStatus::Reachable => (Level::INFO, joined("✓ ", named.as_str())),
            LinkStatus::Questionable(reason) => {
                let mut text = joined("✗ ", named.as_str());
                text.append("\n        ► ");
                text.append(reason.as_str());
                (Level::WARNING, text)
            },
            LinkStatus::Unreachable(Some(reason)) => {
                let mut text = joined("✗ ", named.as_str());
                text.append("\n        ► ");
                text.append(reason.as_str());
                (Level::ERROR, text)
            },
            LinkStatus::Unreachable(None) => (Level::ERROR, joined("✗ ", named.as_str())),
        }
    }
}

/// The counts of a run are those of its outcomes: every link is counted,
/// the questionable ones as warnings, the unreachable ones as errors.
pub proof fn lemma_counts(outcomes: Seq<Outcome>)
    ensures
        counts_of(outcomes).links == outcomes.len(),
        counts_of(outcomes).warnings == questionable_in(outcomes),
        counts_of(outcomes).errors == unreachable_in(outcomes),
    decreases outcomes.len(),
{
    if outcomes.len() > 0 {
        lemma_counts(outcomes.drop_last());
    }
}

/// A run without an unreachable link exits with 0, and reports as many
/// warnings as it has questionable links.
pub proof fn lemma_warnings_do_not_fail(outcomes: Seq<Outcome>)
    requires
        forall|i: int| 0 <= i < outcomes.len() ==> !(#[trigger] outcomes[i] is Unreachable),
    ensures
        exit_status(counts_of(outcomes)) == 0,
        counts_of(outcomes).links == outcomes.len(),
        counts_of(outcomes).warnings == questionable_in(outcomes),
    decreases outcomes.len(),
{
    lemma_counts(outcomes);
    if outcomes.len() > 0 {
        lemma_warnings_do_not_fail(outcomes.drop_last());
    }
}

/// A run with an unreachable link exits with a status other than 0,
/// whatever else it found.
pub proof fn lemma_unreachable_fails(outcomes: Seq<Outcome>, i: int)
    requires
        0 <= i < outcomes.len(),
        outcomes[i] is Unreachable,
    ensures
        exit_status(counts_of(outcomes)) != 0,
    decreases outcomes.len(),
{
    if i < outcomes.len() - 1 {
        lemma_unreachable_fails(outcomes.drop_last(), i);
    }
}

} // verus!

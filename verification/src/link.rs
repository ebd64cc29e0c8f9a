//! A link found in a file: where it stands, what it points at, and what is
//! known of it.

use crate::text::{decimal, decimal_text, joined, starts_with};
use std::sync::Arc;
use vstd::prelude::*;

verus! {

/// How a link is resolved: against the file system or over the network.
#[derive(Clone, Copy, Debug, PartialEq, Eq, Structural)]
pub enum LinkKind {
    Local,
    Http,
}

/// What a verification found.
#[derive(Clone, Debug, PartialEq, Eq)]
pub enum LinkStatus {
    /// The target answers.
    Reachable,
    /// The target probably answers, but this could not be confirmed.
    Questionable(String),
    /// The target does not answer; a reason is given where one is known.
    Unreachable(Option<String>),
}

/// The mathematical value of a [`LinkStatus`].
pub enum Outcome {
    Reachable,
    Questionable(Seq<char>),
    Unreachable(Option<Seq<char>>),
}

impl View for LinkStatus {
    type V = Outcome;

    open spec fn view(&self) -> Outcome {
        match *self {
            LinkStatus::Reachable => Outcome::Reachable,
            LinkStatus::Questionable(reason) => Outcome::Questionable(reason@),
            LinkStatus::Unreachable(Some(reason)) => Outcome::Unreachable(Some(reason@)),
            LinkStatus::Unreachable(None) => Outcome::Unreachable(None),
        }
    }
}

/// One reference found in a file.
///
/// The path of the file is shared by all the links that were found in it.
#[derive(Clone, Debug)]
pub struct Link {
    pub file: Arc<String>,
    pub lnum: u64,
    pub raw: String,
    pub kind: LinkKind,
    pub status: Option<LinkStatus>,
}

/// The mathematical value of a [`Link`].
pub struct LinkView {
    pub file: Seq<char>,
    pub lnum: nat,
    pub raw: Seq<char>,
    pub kind: LinkKind,
    pub status: Option<Outcome>,
}

impl View for Link {
    type V = LinkView;

    open spec fn view(&self) -> LinkView {
        LinkView {
            file: self.file@,
            lnum: self.lnum as nat,
            raw: self.raw@,
            kind: self.kind,
            status: match self.status {
                Some(status) => Some(status@),
                None => None,
            },
        }
    }
}

/// The kind of a link, decided by how its text begins.
pub open spec fn kind_of(raw: Seq<char>) -> LinkKind {
    if "http"@.is_prefix_of(raw) {
        LinkKind::Http
    } else {
        LinkKind::Local
    }
}

/// A link as it is when it has just been found: nothing is known of it yet.
pub open spec fn fresh_link(file: Seq<char>, lnum: nat, raw: Seq<char>) -> LinkView {
    LinkView { file, lnum, raw, kind: kind_of(raw), status: None }
}

/// The characters a section name is made of.
pub open spec fn is_token_char(c: char) -> bool {
    ('a' <= c && c <= 'z') || ('A' <= c && c <= 'Z') || ('0' <= c && c <= '9') || c == '_' || c
        == '-'
}

/// The character that sets a section off from what stands before it.
pub open spec fn is_hash(c: char) -> bool {
    c == '#'
}

/// How many characters at the end of `s`, counted from the last one
/// backwards without a gap, satisfy `p`.
pub open spec fn trailing_run(s: Seq<char>, p: spec_fn(char) -> bool) -> nat
    decreases s.len(),
{
    if s.len() > 0 && p(s.last()) {
        1 + trailing_run(s.drop_last(), p)
    } else {
        0
    }
}

/// Where the section name of `raw` would begin: behind the last character
/// that cannot be part of a name.
pub open spec fn section_start(raw: Seq<char>) -> int {
    raw.len() - trailing_run(raw, |c: char| is_token_char(c))
}

/// Where the run of `#` in front of the section name would begin.
pub open spec fn marker_start(raw: Seq<char>) -> int {
    section_start(raw) - trailing_run(raw.take(section_start(raw)), |c: char| is_hash(c))
}

/// Whether `raw` ends in a section: a name of at least one character, and
/// one or more `#` in front of it.
pub open spec fn has_section(raw: Seq<char>) -> bool {
    &&& section_start(raw) < raw.len()
    &&& marker_start(raw) < section_start(raw)
}

/// The target of a link, parted into the file it names and the section in
/// that file. Without a section the whole text names the file. With one, the
/// file is what stands before the `#`; where nothing stands there, no file
/// is named and the section is looked for in the file that holds the link.
pub open spec fn section_split(raw: Seq<char>) -> (Option<Seq<char>>, Option<Seq<char>>) {
    if has_section(raw) {
        (
            if marker_start(raw) == 0 {
                None
            } else {
                Some(raw.take(marker_start(raw)))
            },
            Some(raw.skip(section_start(raw))),
        )
    } else {
        (Some(raw), None)
    }
}

/// A link of which something is now known: the first finding stays.
pub open spec fn settled(link: LinkView, outcome: Outcome) -> LinkView {
    if link.status is None {
        LinkView { status: Some(outcome), ..link }
    } else {
        link
    }
}

/// What is written of a link in a report: its file, its line and its text.
pub open spec fn description(link: LinkView) -> Seq<char> {
    link.file + " [line "@ + decimal_text(link.lnum) + "]: "@ + link.raw
}

proof fn lemma_trailing_run(s: Seq<char>, p: spec_fn(char) -> bool, i: int)
    requires
        0 <= i <= s.len(),
        forall|k: int| i <= k < s.len() ==> p(#[trigger] s[k]),
        i == 0 || !p(s[i - 1]),
    ensures
        trailing_run(s, p) == s.len() - i,
    decreases s.len() - i,
{
    if i < s.len() {
        lemma_trailing_run(s.drop_last(), p, i);
    }
}

fn token_char(c: char) -> (yes: bool)
    ensures
        yes == is_token_char(c),
{
    ('a' <= c && c <= 'z') || ('A' <= c && c <= 'Z') || ('0' <= c && c <= '9') || c == '_' || c
        == '-'
}

impl LinkStatus {
    /// A copy of the status.
    pub fn duplicate(&self) -> (copy: LinkStatus)
        ensures
            copy@ == self@,
    {
        match self {
            LinkStatus::Reachable => LinkStatus::Reachable,
            LinkStatus::Questionable(reason) => LinkStatus::Questionable(reason.clone()),
            LinkStatus::Unreachable(Some(reason)) => LinkStatus::Unreachable(Some(reason.clone())),
            LinkStatus::Unreachable(None) => LinkStatus::Unreachable(None),
        }
    }
}

impl Link {
    /// Makes the link found at line `lnum` of `file` with the text `raw`.
    pub fn new(file: Arc<String>, lnum: u64, raw: String) -> (link: Link)
        ensures
            link@ == fresh_link(file@, lnum as nat, raw@),
    {
        let kind = if starts_with(raw.as_str(), "http") {
            LinkKind::Http
        } else {
            LinkKind::Local
        };
        Link { file, lnum, raw, kind, status: None }
    }

    /// Parts the link's text into the file it names and the section in it.
    pub fn split_section(&self) -> (parts: (Option<&str>, Option<&str>))
        ensures
            parts.0 is Some == section_split(self.raw@).0 is Some,
            parts.1 is Some == section_split(self.raw@).1 is Some,
            parts.0 matches Some(base) ==> section_split(self.raw@).0 == Some(base@),
            parts.1 matches Some(section) ==> section_split(self.raw@).1 == Some(section@),
    {
        let raw = self.raw.as_str();
        let n = raw.unicode_len();
        let mut t: usize = n;
        while t > 0 && token_char(raw.get_char(t - 1))
            invariant
                n == raw@.len(),
                t <= n,
                forall|k: int| t <= k < n ==> is_token_char(#[trigger] raw@[k]),
            decreases t,
        {
            t = t - 1;
        }
        proof {
            lemma_trailing_run(raw@, |c: char| is_token_char(c), t as int);
        }
        let mut h: usize = t;
        while h > 0 && raw.get_char(h - 1) == '#'
            invariant
                h <= t <= n,
                n == raw@.len(),
                forall|k: int| h <= k < t ==> is_hash(#[trigger] raw@[k]),
            decreases h,
        {
            h = h - 1;
        }
        proof {
            let head = raw@.take(t as int);
            assert forall|k: int| h <= k < head.len() implies is_hash(#[trigger] head[k]) by {
                assert(head[k] == raw@[k]);
            }
            lemma_trailing_run(head, |c: char| is_hash(c), h as int);
        }
        if t == n || h == t {
            return (Some(raw), None);
        }
        let section = raw.substring_char(t, n);
        assert(section@ =~= raw@.skip(t as int));
        if h == 0 {
            (None, Some(section))
        } else {
            let base = raw.substring_char(0, h);
            assert(base@ =~= raw@.take(h as int));
            (Some(base), Some(section))
        }
    }

    /// Records what a verification found. A link is verified once: where
    /// something is already known of it, that stays and `outcome` is dropped.
    pub fn verify(&mut self, outcome: LinkStatus)
        ensures
            final(self)@ == settled(old(self)@, outcome@),
    {
        if self.status.is_none() {
            self.status = Some(outcome);
        }
    }

    /// The link as a report names it.
    pub fn describe(&self) -> (text: String)
        ensures
            text@ == description(self@),
    {
        let mut text = joined(self.file.as_str(), " [line ");
        let line = decimal(self.lnum);
        text.append(line.as_str());
        text.append("]: ");
        text.append(self.raw.as_str());
        text
    }
}

proof fn lemma_run_holds(s: Seq<char>, p: spec_fn(char) -> bool)
    ensures
        trailing_run(s, p) <= s.len(),
        forall|k: int| s.len() - trailing_run(s, p) <= k < s.len() ==> p(#[trigger] s[k]),
    decreases s.len(),
{
    if s.len() > 0 && p(s.last()) {
        lemma_run_holds(s.drop_last(), p);
        assert forall|k: int| s.len() - trailing_run(s, p) <= k < s.len() implies p(
            #[trigger] s[k],
        ) by {
            if k < s.len() - 1 {
                assert(s[k] == s.drop_last()[k]);
            }
        }
    }
}

/// A target written as a file, then one or more `#`, then a name parts
/// into that file and that name; where nothing stands before the `#`, into
/// no file and that name.
pub proof fn lemma_split_of_parts(base: Seq<char>, marker: Seq<char>, name: Seq<char>)
    requires
        name.len() > 0,
        forall|i: int| 0 <= i < name.len() ==> is_token_char(#[trigger] name[i]),
        marker.len() > 0,
        forall|i: int| 0 <= i < marker.len() ==> #[trigger] marker[i] == '#',
        base.len() == 0 || base.last() != '#',
    ensures
        section_split(base + marker + name) == (
            if base.len() == 0 {
                None
            } else {
                Some(base)
            },
            Some(name),
        ),
{
    let raw = base + marker + name;
    let t = (base.len() + marker.len()) as int;
    assert(raw[t - 1] == marker[marker.len() - 1]);
    assert forall|k: int| t <= k < raw.len() implies is_token_char(#[trigger] raw[k]) by {
        assert(raw[k] == name[k - t]);
    }
    lemma_trailing_run(raw, |c: char| is_token_char(c), t);
    let head = raw.take(t);
    assert(head =~= base + marker);
    assert forall|k: int| base.len() <= k < head.len() implies is_hash(#[trigger] head[k]) by {
        assert(head[k] == marker[k - base.len()]);
    }
    if base.len() > 0 {
        assert(head[base.len() - 1] == base.last());
    }
    lemma_trailing_run(head, |c: char| is_hash(c), base.len() as int);
    assert(raw.take(base.len() as int) =~= base);
    assert(raw.skip(t) =~= name);
}

/// The parts of a target make up the target: where a section is found, the
/// text is the file (or nothing), then one or more `#`, then the section,
/// which is a name of at least one character; where none is found, the file
/// is the whole text. Something is always found.
pub proof fn lemma_split_recomposes(raw: Seq<char>)
    ensures
        match section_split(raw) {
            (base, Some(name)) => {
                let file = match base {
                    Some(b) => b,
                    None => Seq::empty(),
                };
                &&& name.len() > 0
                &&& forall|i: int| 0 <= i < name.len() ==> is_token_char(#[trigger] name[i])
                &&& base matches Some(b) ==> b.len() > 0
                &&& file.len() + name.len() < raw.len()
                &&& raw.take(file.len() as int) == file
                &&& raw.skip(raw.len() - name.len()) == name
                &&& forall|k: int|
                    file.len() <= k < raw.len() - name.len() ==> #[trigger] raw[k] == '#'
            },
            (Some(base), None) => base == raw,
            (None, None) => false,
        },
{
    let t = section_start(raw);
    lemma_run_holds(raw, |c: char| is_token_char(c));
    lemma_run_holds(raw.take(t), |c: char| is_hash(c));
    if has_section(raw) {
        let h = marker_start(raw);
        let name = raw.skip(t);
        assert forall|i: int| 0 <= i < name.len() implies is_token_char(#[trigger] name[i]) by {
            assert(name[i] == raw[t + i]);
        }
        assert forall|k: int| h <= k < t implies #[trigger] raw[k] == '#' by {
            assert(raw.take(t)[k] == raw[k]);
            assert(is_hash(raw.take(t)[k]));
        }
    }
}

/// Once something is known of a link, a later finding changes nothing; and
/// whatever is found, the link stays the one it was.
pub proof fn lemma_verified_once(link: LinkView, first: Outcome, second: Outcome)
    ensures
        settled(link, first).status is Some,
        settled(settled(link, first), second) == settled(link, first),
        link.status is None ==> settled(link, first).status == Some(first),
        settled(link, first).file == link.file,
        settled(link, first).lnum == link.lnum,
        settled(link, first).raw == link.raw,
        settled(link, first).kind == link.kind,
{
}

} // verus!

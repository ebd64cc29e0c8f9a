//! The calls into other crates. Verus takes the contracts in this file on
//! trust: each one says what the called code is relied on to do.

use crate::error::ScanError;
use globset::{Glob, GlobSet, GlobSetBuilder};
use grep_matcher::{Captures, Matcher};
use grep_regex::{RegexCaptures, RegexMatcherBuilder};
use grep_searcher::sinks::UTF8;
use grep_searcher::Searcher;
use std::path::Path;
use vstd::prelude::*;

verus! {

/// The finds of a search, each with its text as a sequence of characters.
pub open spec fn finds(list: Seq<(u64, String)>) -> Seq<(u64, Seq<char>)> {
    list.map_values(|f: (u64, String)| (f.0, f.1@))
}

/// What was captured match by match, each text as a sequence of
/// characters.
pub open spec fn captures(list: Seq<Option<String>>) -> Seq<Option<Seq<char>>> {
    list.map_values(
        |c: Option<String>|
            match c {
                Some(s) => Some(s@),
                None => None,
            },
    )
}

/// Whether the line numbers of `list` start at 1 or later and never fall.
pub open spec fn lines_ascend(list: Seq<(u64, Seq<char>)>) -> bool {
    &&& forall|i: int| 0 <= i < list.len() ==> (#[trigger] list[i]).0 >= 1
    &&& forall|i: int, j: int| 0 <= i <= j < list.len() ==> list[i].0 <= list[j].0
}

/// `globset::GlobSetBuilder`, of which Verus sees nothing but the name.
#[verifier::external_type_specification]
#[verifier::external_body]
pub struct ExGlobSetBuilder(globset::GlobSetBuilder);

/// `globset::GlobSet`, of which Verus sees nothing but the name.
#[verifier::external_type_specification]
#[verifier::external_body]
pub struct ExGlobSet(globset::GlobSet);

/// The globs that were added to a builder, in the order in which they came.
pub uninterp spec fn builder_globs(builder: GlobSetBuilder) -> Seq<Seq<char>>;

/// The globs that a set was built from.
pub uninterp spec fn glob_set_globs(set: GlobSet) -> Seq<Seq<char>>;

/// Whether `glob` is written as a glob must be.
pub uninterp spec fn glob_parses(glob: Seq<char>) -> bool;

/// Whether a set can be built from `globs`, each of which parses.
pub uninterp spec fn glob_set_builds(globs: Seq<Seq<char>>) -> bool;

/// Whether one of `globs` matches `path`.
pub uninterp spec fn globs_match(globs: Seq<Seq<char>>, path: Seq<char>) -> bool;

/// Why `grep_regex` does not compile `pattern`, in the words of its error;
/// `None` where it compiles. `fold` says whether letters are to match in
/// either case.
pub uninterp spec fn regex_error(pattern: Seq<char>, fold: bool) -> Option<Seq<char>>;

/// Whether `pattern` is a regular expression that `grep_regex` compiles.
pub open spec fn regex_compiles(pattern: Seq<char>, fold: bool) -> bool {
    regex_error(pattern, fold) is None
}

/// The lines of `text` in which the regular expression `pattern` matches,
/// each with its number, in the order of the text; where the search fails,
/// the words of its error. It says nothing of a pattern that does not
/// compile.
pub uninterp spec fn matching_lines(pattern: Seq<char>, fold: bool, text: Seq<u8>) -> Result<
    Seq<(u64, Seq<char>)>,
    Seq<char>,
>;

/// The matches of the regular expression `pattern` in `line`, one after the
/// other from left to right and none overlapping another: for each match,
/// what group `group` captured in it, and `None` where the group took no
/// part in the match or what it spans is no text of its own. It says
/// nothing of a pattern that does not compile.
pub uninterp spec fn line_matches(pattern: Seq<char>, group: nat, line: Seq<char>) -> Seq<
    Option<Seq<char>>,
>;

/// The path without its last component, by the rules of `std::path`;
/// `None` where the path has none to take away.
pub uninterp spec fn path_parent(path: Seq<char>) -> Option<Seq<char>>;

/// The path `rel` as seen from the directory `dir`, by the rules of
/// `std::path`.
pub uninterp spec fn path_join(dir: Seq<char>, rel: Seq<char>) -> Seq<char>;

/// `globset::GlobSetBuilder::new`: a builder to which nothing was added.
#[verifier::external_body]
pub(crate) fn new_glob_set_builder() -> (builder: GlobSetBuilder)
    ensures
        builder_globs(builder) == Seq::<Seq<char>>::empty(),
{
    GlobSetBuilder::new()
}

/// Parses `glob` with `globset::Glob::new` and, where it parses, adds it
/// with `GlobSetBuilder::add`.
///
/// Taken on trust: whether a glob parses depends on its text alone; one
/// that parses is added behind the others, and one that does not leaves
/// the builder as it was.
#[verifier::external_body]
pub(crate) fn add_glob(builder: &mut GlobSetBuilder, glob: &str) -> (added: bool)
    ensures
        added == glob_parses(glob@),
        builder_globs(*final(builder)) == if added {
            builder_globs(*old(builder)).push(glob@)
        } else {
            builder_globs(*old(builder))
        },
{
    match Glob::new(glob) {
        Ok(parsed) => {
            builder.add(parsed);
            true
        },
        Err(_) => false,
    }
}

/// `globset::GlobSetBuilder::build`.
///
/// Taken on trust: whether the set can be built depends on the globs
/// alone, and the set holds the globs of the builder.
#[verifier::external_body]
pub(crate) fn build_glob_set(builder: &GlobSetBuilder) -> (res: Option<GlobSet>)
    ensures
        res is Some == glob_set_builds(builder_globs(*builder)),
        res matches Some(set) ==> glob_set_globs(set) == builder_globs(*builder),
{
    builder.build().ok()
}

/// `globset::GlobSet::is_match`.
///
/// Taken on trust: the answer depends on the globs of the set and on the
/// path alone.
#[verifier::external_body]
pub(crate) fn glob_set_is_match(set: &GlobSet, path: &str) -> (yes: bool)
    ensures
        yes == globs_match(glob_set_globs(*set), path@),
{
    set.is_match(path)
}

/// Tries `grep_regex::RegexMatcherBuilder::build` on `pattern`.
///
/// Taken on trust: whether a pattern compiles depends on the pattern and on
/// `fold` alone.
#[verifier::external_body]
pub(crate) fn compiles(pattern: &str, fold: bool) -> (res: bool)
    ensures
        res == (regex_error(pattern@, fold) is None),
{
    RegexMatcherBuilder::new().case_insensitive(fold).build(pattern).is_ok()
}

/// Runs `grep_searcher::Searcher::search_slice` over `text` with the matcher
/// that `grep_regex` compiles from `pattern`, and collects the lines that
/// the `UTF8` sink is given.
///
/// Taken on trust: the error is `Pattern` exactly where the pattern does not
/// compile; the lines, and the words of either error, depend on the three
/// arguments alone; the lines are numbered from 1 and come in the order of
/// the text.
#[verifier::external_body]
pub(crate) fn search_lines(pattern: &str, fold: bool, text: &[u8]) -> (res: Result<
    Vec<(u64, String)>,
    ScanError,
>)
    ensures
        match res {
            Ok(list) => regex_error(pattern@, fold) is None && matching_lines(
                pattern@,
                fold,
                text@,
            ) == Ok::<Seq<(u64, Seq<char>)>, Seq<char>>(finds(list@)) && lines_ascend(
                finds(list@),
            ),
            Err(ScanError::Pattern(detail)) => regex_error(pattern@, fold) == Some(detail@),
            Err(ScanError::Search(detail)) => regex_error(pattern@, fold) is None
                && matching_lines(pattern@, fold, text@) == Err::<
                Seq<(u64, Seq<char>)>,
                Seq<char>,
            >(detail@),
            Err(ScanError::Group(_)) => false,
        },
{
    let matcher = RegexMatcherBuilder::new().case_insensitive(fold).build(pattern)
        .map_err(|e| ScanError::Pattern(format!("{:?}", e)))?;
    let mut list = Vec::new();
    let sink = UTF8(|lnum, line| {
        list.push((lnum, line.to_string()));
        Ok(true)
    });
    Searcher::new().search_slice(&matcher, text, sink)
        .map_err(|e| ScanError::Search(format!("{:?}", e)))?;
    Ok(list)
}

/// Runs `grep_matcher::Matcher::captures_iter` over `line` with the matcher
/// that `grep_regex` compiles from `pattern`, and collects for each match
/// what `Captures::get` gives for group `group`, as text.
///
/// Taken on trust: the call fails exactly where the pattern does not
/// compile, with the words of that error; there is one entry for every
/// match, and the entries depend on the three arguments alone.
#[verifier::external_body]
pub(crate) fn captures_in(pattern: &str, group: usize, line: &str) -> (res: Result<
    Vec<Option<String>>,
    ScanError,
>)
    ensures
        match res {
            Ok(list) => regex_error(pattern@, false) is None && captures(list@) == line_matches(
                pattern@,
                group as nat,
                line@,
            ),
            Err(ScanError::Pattern(detail)) => regex_error(pattern@, false) == Some(detail@),
            Err(_) => false,
        },
{
    let matcher = RegexMatcherBuilder::new().build(pattern)
        .map_err(|e| ScanError::Pattern(format!("{:?}", e)))?;
    let mut caps = matcher.new_captures().map_err(|e| ScanError::Search(format!("{:?}", e)))?;
    let mut list = Vec::new();
    let visit = |c: &RegexCaptures| {
        list.push(c.get(group).and_then(|m| line.get(m.start()..m.end())).map(str::to_string));
        true
    };
    matcher.captures_iter(line.as_bytes(), &mut caps, visit)
        .map_err(|e| ScanError::Search(format!("{:?}", e)))?;
    Ok(list)
}

/// `std::path::Path::parent` on paths held as text.
///
/// Taken on trust: the result depends on the path alone.
#[verifier::external_body]
pub(crate) fn parent_of(path: &str) -> (res: Option<String>)
    ensures
        res is Some == path_parent(path@) is Some,
        res matches Some(dir) ==> path_parent(path@) == Some(dir@),
{
    Path::new(path).parent().map(|p| p.to_string_lossy().into_owned())
}

/// `std::path::Path::join` on paths held as text.
///
/// Taken on trust: the result depends on the two paths alone.
#[verifier::external_body]
pub(crate) fn join_paths(dir: &str, rel: &str) -> (res: String)
    ensures
        res@ == path_join(dir@, rel@),
{
    Path::new(dir).join(rel).to_string_lossy().into_owned()
}

} // verus!

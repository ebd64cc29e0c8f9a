//! Kinds of file and the links they hold.
//!
//! A [`DocFile`] pairs the globs that name a kind of file with the regular
//! expression that finds link targets in such a file.

use crate::error::{ScanError, ScanFault};
use crate::link::{fresh_link, Link, LinkView};
use crate::trusted::{
    add_glob, build_glob_set, builder_globs, captures, captures_in, compiles, finds, glob_parses,
    glob_set_builds, glob_set_globs, glob_set_is_match, globs_match, line_matches,
    matching_lines, new_glob_set_builder, regex_compiles, search_lines,
};
use globset::GlobSet;
use std::sync::Arc;
use vstd::prelude::*;

verus! {

/// One kind of file: the globs that its paths match, the pattern that finds
/// a link in its text, and the group of the pattern that captures the
/// link's target.
pub struct DocFile {
    glob_set: GlobSet,
    link_pattern: String,
    match_group: usize,
}

/// The mathematical value of a [`DocFile`].
pub struct DocFileView {
    pub globs: Seq<Seq<char>>,
    pub link_pattern: Seq<char>,
    pub match_group: nat,
}

/// Whether a glob set can be built from `globs`: each of them parses, and
/// together they make a set.
pub open spec fn globs_build(globs: Seq<Seq<char>>) -> bool {
    &&& forall|i: int| 0 <= i < globs.len() ==> glob_parses(#[trigger] globs[i])
    &&& glob_set_builds(globs)
}

/// Whether `pattern` is a regular expression that can be searched for.
pub open spec fn pattern_compiles(pattern: Seq<char>) -> bool {
    regex_compiles(pattern, false)
}

/// The globs of a list, each as a sequence of characters.
pub open spec fn glob_texts(globs: Seq<&str>) -> Seq<Seq<char>> {
    globs.map_values(|g: &str| g@)
}

/// Whether `path` names a file of the kind `category`.
pub open spec fn category_matches(category: DocFileView, path: Seq<char>) -> bool {
    globs_match(category.globs, path)
}

/// The links of one line of `file`: one for each of the targets that were
/// captured in it, in their order.
pub open spec fn links_at(file: Seq<char>, lnum: u64, targets: Seq<Seq<char>>) -> Seq<LinkView> {
    targets.map_values(|raw: Seq<char>| fresh_link(file, lnum as nat, raw))
}

/// The links of some lines of `file`, each line given by its number and the
/// targets captured in it: those of the first line, then those of the
/// second, and so on.
pub open spec fn links_of_lines(file: Seq<char>, found: Seq<(u64, Seq<Seq<char>>)>) -> Seq<
    LinkView,
>
    decreases found.len(),
{
    if found.len() == 0 {
        Seq::empty()
    } else {
        links_of_lines(file, found.drop_last()) + links_at(file, found.last().0, found.last().1)
    }
}

/// The texts of a list, each as a sequence of characters.
pub open spec fn texts(list: Seq<String>) -> Seq<Seq<char>> {
    list.map_values(|s: String| s@)
}

/// Lines with the targets captured in them, as mathematical values.
pub open spec fn captured_view(found: Seq<(u64, Vec<String>)>) -> Seq<(u64, Seq<Seq<char>>)> {
    found.map_values(|f: (u64, Vec<String>)| (f.0, texts(f.1@)))
}

/// Whether every match captured a target.
pub open spec fn all_captured(matches: Seq<Option<Seq<char>>>) -> bool {
    forall|k: int| 0 <= k < matches.len() ==> (#[trigger] matches[k]) is Some
}

/// The targets that the matches captured, where every one captured one.
pub open spec fn targets_of(matches: Seq<Option<Seq<char>>>) -> Seq<Seq<char>> {
    matches.map_values(
        |m: Option<Seq<char>>|
            match m {
                Some(target) => target,
                None => Seq::empty(),
            },
    )
}

/// The matches of the pattern of `category` in each of `lines`, with what
/// its group captured in them.
pub open spec fn matches_of(category: DocFileView, lines: Seq<(u64, Seq<char>)>) -> Seq<
    (u64, Seq<Option<Seq<char>>>),
> {
    lines.map_values(
        |l: (u64, Seq<char>)|
            (l.0, line_matches(category.link_pattern, category.match_group, l.1)),
    )
}

/// Whether line `i` is the first in which a match captured no target.
pub open spec fn is_first_gap(found: Seq<(u64, Seq<Option<Seq<char>>>)>, i: int) -> bool {
    &&& 0 <= i < found.len()
    &&& !all_captured(found[i].1)
    &&& forall|k: int| 0 <= k < i ==> all_captured(#[trigger] found[k].1)
}

/// Whether every match in every line captured a target.
pub open spec fn complete(found: Seq<(u64, Seq<Option<Seq<char>>>)>) -> bool {
    forall|k: int| 0 <= k < found.len() ==> all_captured(#[trigger] found[k].1)
}

/// The lines with the targets captured in them.
pub open spec fn kept(found: Seq<(u64, Seq<Option<Seq<char>>>)>) -> Seq<(u64, Seq<Seq<char>>)> {
    found.map_values(|f: (u64, Seq<Option<Seq<char>>>)| (f.0, targets_of(f.1)))
}

/// How many targets the lines hold between them.
pub open spec fn target_count(found: Seq<(u64, Seq<Seq<char>>)>) -> nat
    decreases found.len(),
{
    if found.len() == 0 {
        0
    } else {
        target_count(found.drop_last()) + found.last().1.len()
    }
}

/// Whether the numbers of the lines never fall.
pub open spec fn lines_rise(found: Seq<(u64, Seq<Seq<char>>)>) -> bool {
    forall|i: int, j: int| 0 <= i <= j < found.len() ==> found[i].0 <= found[j].0
}

/// The values of a list of links.
pub open spec fn link_views(links: Seq<Link>) -> Seq<LinkView> {
    links.map_values(|l: Link| l@)
}

/// The links that `text`, the contents of `file`, holds for `category`:
/// one for every match of the pattern in the lines in which it matches. The
/// search fails where these lines cannot be had, and where a match
/// captured no target: then with the number of the first line that holds
/// such a match.
pub open spec fn links_in(category: DocFileView, file: Seq<char>, text: Seq<u8>) -> Result<
    Seq<LinkView>,
    ScanFault,
> {
    match matching_lines(category.link_pattern, false, text) {
        Err(detail) => Err(ScanFault::Search(detail)),
        Ok(lines) => {
            let found = matches_of(category, lines);
            if complete(found) {
                Ok(links_of_lines(file, kept(found)))
            } else {
                Err(ScanFault::Group(found[choose|i: int| is_first_gap(found, i)].0))
            }
        },
    }
}

/// The result of a search for links, as a mathematical value.
pub open spec fn scan_view(res: Result<Vec<Link>, ScanError>) -> Result<Seq<LinkView>, ScanFault> {
    match res {
        Ok(links) => Ok(link_views(links@)),
        Err(e) => Err(e@),
    }
}

/// Whether the lines of `links` never fall from one link to the next.
pub open spec fn in_line_order(links: Seq<LinkView>) -> bool {
    forall|i: int, j: int| 0 <= i <= j < links.len() ==> links[i].lnum <= links[j].lnum
}

/// Whether every one of `links` stands at line `bound` or before it.
pub open spec fn none_behind(links: Seq<LinkView>, bound: nat) -> bool {
    forall|k: int| 0 <= k < links.len() ==> (#[trigger] links[k]).lnum <= bound
}

/// Whether none of the first `n` categories matches `path`.
pub open spec fn none_matches(categories: Seq<DocFile>, n: int, path: Seq<char>) -> bool {
    forall|j: int| 0 <= j < n ==> !category_matches(#[trigger] categories[j]@, path)
}

/// Whether `found` is the first of `categories` that matches `path`, or
/// `None` where none does.
pub open spec fn is_first_match(categories: Seq<DocFile>, path: Seq<char>, found: Option<usize>)
    -> bool {
    match found {
        Some(i) => i < categories.len() && category_matches(categories[i as int]@, path)
            && none_matches(categories, i as int, path),
        None => none_matches(categories, categories.len() as int, path),
    }
}

impl View for DocFile {
    type V = DocFileView;

    closed spec fn view(&self) -> DocFileView {
        DocFileView {
            globs: glob_set_globs(self.glob_set),
            link_pattern: self.link_pattern@,
            match_group: self.match_group as nat,
        }
    }
}

/// Builds the set of `globs`, where one can be built.
fn glob_set_of(globs: &Vec<&str>) -> (res: Option<GlobSet>)
    ensures
        res is Some == globs_build(glob_texts(globs@)),
        res matches Some(set) ==> glob_set_globs(set) == glob_texts(globs@),
{
    let mut builder = new_glob_set_builder();
    let mut i: usize = 0;
    while i < globs.len()
        invariant
            i <= globs.len(),
            builder_globs(builder) == glob_texts(globs@).take(i as int),
            forall|k: int| 0 <= k < i ==> glob_parses(#[trigger] glob_texts(globs@)[k]),
        decreases globs.len() - i,
    {
        if !add_glob(&mut builder, globs[i]) {
            assert(!glob_parses(glob_texts(globs@)[i as int]));
            return None;
        }
        assert(glob_texts(globs@).take(i + 1) =~= glob_texts(globs@).take(i as int).push(
            globs@[i as int]@,
        ));
        i = i + 1;
    }
    assert(glob_texts(globs@).take(i as int) =~= glob_texts(globs@));
    build_glob_set(&builder)
}

impl DocFile {
    #[verifier::type_invariant]
    spec fn usable(&self) -> bool {
        pattern_compiles(self.link_pattern@)
    }

    /// Makes the kind of file that `globs` name, whose links `link_pattern`
    /// finds and captures in its group `match_group`.
    pub fn new(globs: Vec<&str>, link_pattern: &str, match_group: usize) -> (category: DocFile)
        requires
            globs_build(glob_texts(globs@)),
            pattern_compiles(link_pattern@),
        ensures
            category@ == (DocFileView {
                globs: glob_texts(globs@),
                link_pattern: link_pattern@,
                match_group: match_group as nat,
            }),
    {
        DocFile {
            glob_set: glob_set_of(&globs).unwrap(),
            link_pattern: String::from_str(link_pattern),
            match_group,
        }
    }

    /// Makes the kind of file as [`DocFile::new`] does, where the globs and
    /// the pattern are in order, and nothing where they are not.
    pub fn try_new(globs: Vec<&str>, link_pattern: &str, match_group: usize) -> (res: Option<
        DocFile,
    >)
        ensures
            res is Some == (globs_build(glob_texts(globs@)) && pattern_compiles(link_pattern@)),
            res matches Some(category) ==> category@ == (DocFileView {
                globs: glob_texts(globs@),
                link_pattern: link_pattern@,
                match_group: match_group as nat,
            }),
    {
        if !compiles(link_pattern, false) || glob_set_of(&globs).is_none() {
            None
        } else {
            Some(DocFile::new(globs, link_pattern, match_group))
        }
    }

    /// Tells whether `path` names a file of this kind.
    pub fn is_match(&self, path: &str) -> (yes: bool)
        ensures
            yes == category_matches(self@, path@),
    {
        glob_set_is_match(&self.glob_set, path)
    }

    /// Finds the links in `text`, the contents of `file`: one for every
    /// match of the pattern, several on a line included, in the order of
    /// the text. The search fails where a line that matches is not UTF-8,
    /// and where the pattern matches without its group capturing a target.
    pub fn iter_links(&self, file: &Arc<String>, text: &[u8]) -> (res: Result<Vec<Link>, ScanError>)
        ensures
            scan_view(res) == links_in(self@, file@, text@),
            res matches Ok(links) ==> in_line_order(link_views(links@)),
    {
        proof {
            use_type_invariant(self);
        }
        let lines = match search_lines(self.link_pattern.as_str(), false, text) {
            Ok(lines) => lines,
            Err(e) => {
                return Err(e);
            },
        };
        let ghost wanted = matches_of(self@, finds(lines@));
        let mut found: Vec<(u64, Vec<String>)> = Vec::new();
        let mut i: usize = 0;
        assert(lines_rise(kept(wanted)));
        while i < lines.len()
            invariant
                i <= lines.len(),
                wanted == matches_of(self@, finds(lines@)),
                matching_lines(self@.link_pattern, false, text@) == Ok::<
                    Seq<(u64, Seq<char>)>,
                    Seq<char>,
                >(finds(lines@)),
                lines_rise(kept(wanted)),
                pattern_compiles(self@.link_pattern),
                self@.link_pattern == self.link_pattern@,
                self@.match_group == self.match_group as nat,
                forall|k: int| 0 <= k < i ==> all_captured(#[trigger] wanted[k].1),
                captured_view(found@) == kept(wanted).take(i as int),
            decreases lines.len() - i,
        {
            let matches = match captures_in(
                self.link_pattern.as_str(),
                self.match_group,
                lines[i].1.as_str(),
            ) {
                Ok(matches) => matches,
                Err(e) => {
                    return Err(e);
                },
            };
            assert(captures(matches@) == wanted[i as int].1);
            let targets = match captured_targets(&matches) {
                Some(targets) => targets,
                None => {
                    proof {
                        assert(is_first_gap(wanted, i as int));
                        assert forall|j: int| is_first_gap(wanted, j) implies j == i by {
                            if j < i {
                                assert(all_captured(wanted[j].1));
                            } else if i < j {
                                assert(all_captured(wanted[i as int].1));
                            }
                        }
                        assert(!complete(wanted));
                    }
                    return Err(ScanError::Group(lines[i].0));
                },
            };
            let ghost before = captured_view(found@);
            found.push((lines[i].0, targets));
            assert(captured_view(found@) =~= before.push(kept(wanted)[i as int]));
            assert(kept(wanted).take(i + 1) =~= kept(wanted).take(i as int).push(
                kept(wanted)[i as int],
            ));
            i = i + 1;
        }
        let links = links_of(file, &found);
        proof {
            assert(kept(wanted).take(i as int) =~= kept(wanted));
            assert(complete(wanted));
            lemma_links_in_line_order(file@, kept(wanted));
        }
        Ok(links)
    }
}

/// Takes the targets out of what was captured match by match: all of them,
/// in their order, where every match captured one, and nothing where one
/// did not.
pub fn captured_targets(matches: &Vec<Option<String>>) -> (res: Option<Vec<String>>)
    ensures
        res is Some == all_captured(captures(matches@)),
        res matches Some(targets) ==> texts(targets@) == targets_of(captures(matches@)),
{
    let mut targets: Vec<String> = Vec::new();
    let mut i: usize = 0;
    while i < matches.len()
        invariant
            i <= matches.len(),
            forall|k: int| 0 <= k < i ==> (#[trigger] captures(matches@)[k]) is Some,
            texts(targets@) == targets_of(captures(matches@)).take(i as int),
        decreases matches.len() - i,
    {
        match &matches[i] {
            Some(target) => {
                let ghost before = texts(targets@);
                targets.push(target.clone());
                assert(texts(targets@) =~= before.push(target@));
                assert(targets_of(captures(matches@)).take(i + 1) =~= targets_of(
                    captures(matches@),
                ).take(i as int).push(target@));
            },
            None => {
                assert(captures(matches@)[i as int] is None);
                return None;
            },
        }
        i = i + 1;
    }
    assert(targets_of(captures(matches@)).take(i as int) =~= targets_of(captures(matches@)));
    Some(targets)
}

/// Makes the links of `file` from the lines in which targets were found:
/// one link for every target, line after line.
pub fn links_of(file: &Arc<String>, found: &Vec<(u64, Vec<String>)>) -> (links: Vec<Link>)
    ensures
        link_views(links@) == links_of_lines(file@, captured_view(found@)),
{
    let ghost wanted = captured_view(found@);
    let mut links: Vec<Link> = Vec::new();
    let mut i: usize = 0;
    assert(link_views(links@) =~= links_of_lines(file@, wanted.take(0)));
    while i < found.len()
        invariant
            i <= found.len(),
            wanted == captured_view(found@),
            link_views(links@) == links_of_lines(file@, wanted.take(i as int)),
        decreases found.len() - i,
    {
        let ghost before = link_views(links@);
        let ghost here = links_at(file@, wanted[i as int].0, wanted[i as int].1);
        let targets = &found[i].1;
        let mut j: usize = 0;
        assert(link_views(links@) =~= before + here.take(0));
        while j < targets.len()
            invariant
                j <= targets.len(),
                i < found.len(),
                wanted == captured_view(found@),
                targets == &found@[i as int].1,
                here == links_at(file@, wanted[i as int].0, wanted[i as int].1),
                link_views(links@) == before + here.take(j as int),
            decreases targets.len() - j,
        {
            let ghost so_far = link_views(links@);
            let link = Link::new(file.clone(), found[i].0, targets[j].clone());
            links.push(link);
            proof {
                assert(link_views(links@) =~= so_far.push(link@));
                assert(here.take(j + 1) =~= here.take(j as int).push(here[j as int]));
                assert(link_views(links@) =~= before + here.take(j + 1));
            }
            j = j + 1;
        }
        proof {
            assert(here.take(j as int) =~= here);
            let upto = wanted.take(i + 1);
            assert(upto.drop_last() =~= wanted.take(i as int));
            assert(upto.last() == wanted[i as int]);
        }
        i = i + 1;
    }
    assert(wanted.take(i as int) =~= wanted);
    links
}

/// Links come in the order of the text: where the numbers of the lines
/// never fall, neither do those of the links; and every target that was
/// captured gives a link, so that a line gives as many links as it holds
/// targets.
pub proof fn lemma_links_in_line_order(file: Seq<char>, found: Seq<(u64, Seq<Seq<char>>)>)
    requires
        lines_rise(found),
    ensures
        in_line_order(links_of_lines(file, found)),
        found.len() > 0 ==> none_behind(links_of_lines(file, found), found.last().0 as nat),
        forall|i: int|
            0 <= i < found.len() ==> (#[trigger] links_at(file, found[i].0, found[i].1)).len()
                == found[i].1.len(),
    decreases found.len(),
{
    if found.len() > 0 {
        let front = found.drop_last();
        lemma_links_in_line_order(file, front);
        let before = links_of_lines(file, front);
        let here = links_at(file, found.last().0, found.last().1);
        let all = links_of_lines(file, found);
        let bound = found.last().0 as nat;
        assert forall|k: int| 0 <= k < before.len() implies (#[trigger] before[k]).lnum
            <= bound by {
            assert(front.last().0 <= found.last().0) by {
                assert(front.last() == found[found.len() - 2]);
            }
        }
        assert forall|k: int| 0 <= k < all.len() implies (#[trigger] all[k]).lnum <= bound by {
            if k < before.len() {
                assert(all[k] == before[k]);
            } else {
                assert(all[k] == here[k - before.len()]);
            }
        }
        assert forall|i: int, j: int| 0 <= i <= j < all.len() implies all[i].lnum
            <= all[j].lnum by {
            if j < before.len() {
                assert(all[i] == before[i] && all[j] == before[j]);
            } else {
                assert(all[j] == here[j - before.len()]);
            }
        }
    }
}

/// Every match gives one link: there are as many links as the lines hold
/// targets, and where every match captured a target, a line holds as many
/// targets as the pattern matched in it.
pub proof fn lemma_one_link_per_match(
    file: Seq<char>,
    found: Seq<(u64, Seq<Option<Seq<char>>>)>,
)
    ensures
        links_of_lines(file, kept(found)).len() == target_count(kept(found)),
        forall|i: int| 0 <= i < found.len() ==> (#[trigger] kept(found)[i]).1.len() == found[i].1.len(),
    decreases found.len(),
{
    if found.len() > 0 {
        lemma_one_link_per_match(file, found.drop_last());
        assert(kept(found).drop_last() =~= kept(found.drop_last()));
    }
}

/// Picks the kind of file that `path` belongs to: the first of `categories`
/// that matches it. The kinds behind it are not asked.
pub fn select(categories: &Vec<DocFile>, path: &str) -> (found: Option<usize>)
    ensures
        is_first_match(categories@, path@, found),
{
    let mut i: usize = 0;
    while i < categories.len()
        invariant
            i <= categories.len(),
            none_matches(categories@, i as int, path@),
        decreases categories.len() - i,
    {
        if categories[i].is_match(path) {
            return Some(i);
        }
        i = i + 1;
    }
    None
}

/// Finds the links in `text`, the contents of the file `file`, by the
/// pattern of the first kind that matches the file's path. A file of no
/// kind holds no links.
pub fn extract(categories: &Vec<DocFile>, file: &Arc<String>, text: &[u8]) -> (res: Result<
    Vec<Link>,
    ScanError,
>)
    ensures
        none_matches(categories@, categories@.len() as int, file@) ==> (res matches Ok(links)
            && links@.len() == 0),
        forall|i: usize|
            is_first_match(categories@, file@, Some(i)) ==> scan_view(res) == links_in(
                categories@[i as int]@,
                file@,
                text@,
            ),
        res matches Ok(links) ==> in_line_order(link_views(links@)),
{
    match select(categories, file.as_str()) {
        Some(i) => {
            assert forall|j: usize| is_first_match(categories@, file@, Some(j)) implies j == i by {
                if j < i {
                    assert(!category_matches(categories@[j as int]@, file@));
                } else if i < j {
                    assert(!category_matches(categories@[i as int]@, file@));
                }
            }
            categories[i].iter_links(file, text)
        },
        None => {
            let links: Vec<Link> = Vec::new();
            assert(in_line_order(link_views(links@)));
            Ok(links)
        },
    }
}

} // verus!

use check_links::doc_file::{captured_targets, extract, links_of, select, DocFile};
use check_links::link::{Link, LinkKind};
use check_links::error::ScanError;
use std::sync::Arc;

const RUST_LINK: &str = r"^\s*(///|//!).*\[[^\[\]]+\]\(([^\(\)]+)\)";
const MARKDOWN_LINK: &str = r"\[[^\[\]]+\]\(([^\(\)]+)\)";

fn categories() -> Vec<DocFile> {
    vec![
        DocFile::try_new(vec!["*.rs"], RUST_LINK, 2).unwrap(),
        DocFile::try_new(vec!["*.md"], MARKDOWN_LINK, 1).unwrap(),
    ]
}

fn found(links: &[Link]) -> Vec<(u64, String)> {
    links.iter().map(|l| (l.lnum, l.raw.clone())).collect()
}

#[test]
fn globs_match_paths() {
    let md = DocFile::try_new(vec!["*.md"], MARKDOWN_LINK, 1).unwrap();
    assert!(md.is_match("README.md"));
    assert!(md.is_match("docs/guide/a.md"));
    assert!(!md.is_match("src/lib.rs"));
    assert!(!md.is_match("README.md.bak"));
    assert!(!md.is_match(""));
    let two = DocFile::try_new(vec!["*.md", "docs/*.txt"], MARKDOWN_LINK, 1).unwrap();
    assert!(two.is_match("a.md"));
    assert!(two.is_match("docs/a.txt"));
    assert!(!two.is_match("a.txt"));
    let none = DocFile::try_new(vec![], MARKDOWN_LINK, 1).unwrap();
    assert!(!none.is_match("a.md"));
}

#[test]
fn bad_globs_and_patterns_make_no_category() {
    assert!(DocFile::try_new(vec!["*.md", "[a"], MARKDOWN_LINK, 1).is_none());
    assert!(DocFile::try_new(vec!["*.md"], "(", 1).is_none());
    assert!(DocFile::try_new(vec!["*.md"], MARKDOWN_LINK, 1).is_some());
}

#[test]
fn markdown_links_come_in_the_order_of_the_text() {
    let md = DocFile::try_new(vec!["*.md"], MARKDOWN_LINK, 1).unwrap();
    let file = Arc::new("docs/a.md".to_string());
    let text = b"See [a](./a.md) and [b](http://b.example)\n\nnothing here\n[c](#top) [d](d.md#x)\n";
    let links = md.iter_links(&file, text).unwrap();
    assert_eq!(
        found(&links),
        vec![
            (1, "./a.md".to_string()),
            (1, "http://b.example".to_string()),
            (4, "#top".to_string()),
            (4, "d.md#x".to_string()),
        ]
    );
    assert_eq!(links[0].kind, LinkKind::Local);
    assert_eq!(links[1].kind, LinkKind::Http);
    for l in &links {
        assert_eq!(l.file.as_str(), "docs/a.md");
        assert!(l.status.is_none());
        assert!(Arc::ptr_eq(&l.file, &file));
    }
}

#[test]
fn rust_links_are_found_in_doc_comments_only() {
    let rs = DocFile::try_new(vec!["*.rs"], RUST_LINK, 2).unwrap();
    let file = Arc::new("src/lib.rs".to_string());
    let text = b"/// See [x](./x.md)\nfn f() {} // [y](./y.md)\n    //! [z](https://z.example)\n";
    let links = rs.iter_links(&file, text).unwrap();
    assert_eq!(
        found(&links),
        vec![(1, "./x.md".to_string()), (3, "https://z.example".to_string())]
    );
}

#[test]
fn text_without_links_gives_none() {
    let md = DocFile::try_new(vec!["*.md"], MARKDOWN_LINK, 1).unwrap();
    let file = Arc::new("a.md".to_string());
    assert!(md.iter_links(&file, b"").unwrap().is_empty());
    assert!(md.iter_links(&file, b"no links\nat all\n").unwrap().is_empty());
}

#[test]
fn a_match_without_its_group_fails_the_file() {
    let file = Arc::new("f".to_string());
    let c = DocFile::try_new(vec!["*"], "(a)|(b)", 2).unwrap();
    assert_eq!(c.iter_links(&file, b"a\nb\nab\n"), Err(ScanError::Group(1)));
    assert_eq!(c.iter_links(&file, b"b\nbb\nx\nba\na\n"), Err(ScanError::Group(4)));
    let links = c.iter_links(&file, b"b\nx\nbb\n").unwrap();
    assert_eq!(found(&links), vec![(1, "b".to_string()), (3, "b".to_string()), (3, "b".to_string())]);
}

#[test]
fn a_group_that_the_pattern_lacks_fails_the_file() {
    let file = Arc::new("f".to_string());
    let c = DocFile::try_new(vec!["*"], "(a)|(b)", 7).unwrap();
    assert_eq!(c.iter_links(&file, b"x\na\nb\n"), Err(ScanError::Group(2)));
    assert!(c.iter_links(&file, b"x\ny\n").unwrap().is_empty());
    let md = DocFile::try_new(vec!["*.md"], MARKDOWN_LINK, 2).unwrap();
    assert_eq!(md.iter_links(&file, b"[a](b)\n"), Err(ScanError::Group(1)));
}

#[test]
fn group_zero_is_the_whole_match() {
    let c = DocFile::try_new(vec!["*"], "a+", 0).unwrap();
    let links = c.iter_links(&Arc::new("f".to_string()), b"aa b a\n").unwrap();
    assert_eq!(found(&links), vec![(1, "aa".to_string()), (1, "a".to_string())]);
}

#[test]
fn captured_targets_wants_every_match_to_hold_one() {
    assert_eq!(captured_targets(&vec![]), Some(vec![]));
    assert_eq!(
        captured_targets(&vec![Some("a".to_string()), Some("".to_string()), Some("b".to_string())]),
        Some(vec!["a".to_string(), "".to_string(), "b".to_string()])
    );
    assert_eq!(captured_targets(&vec![Some("a".to_string()), None]), None);
    assert_eq!(captured_targets(&vec![None, Some("a".to_string())]), None);
    assert_eq!(captured_targets(&vec![None]), None);
}

#[test]
fn bad_utf8_in_a_matching_line_fails_the_file() {
    let md = DocFile::try_new(vec!["*.md"], MARKDOWN_LINK, 1).unwrap();
    let file = Arc::new("a.md".to_string());
    assert!(matches!(md.iter_links(&file, b"\xff [a](b)\n"), Err(ScanError::Search(_))));
    assert_eq!(found(&md.iter_links(&file, b"\xff\n[a](b)\n").unwrap()), vec![(2, "b".to_string())]);
}

#[test]
fn the_first_category_that_matches_wins() {
    let both = vec![
        DocFile::try_new(vec!["*.rs"], RUST_LINK, 2).unwrap(),
        DocFile::try_new(vec!["*.md"], MARKDOWN_LINK, 1).unwrap(),
        DocFile::try_new(vec!["*.md", "*.rs"], "(x)", 1).unwrap(),
    ];
    assert_eq!(select(&both, "src/lib.rs"), Some(0));
    assert_eq!(select(&both, "README.md"), Some(1));
    assert_eq!(select(&both, "notes.txt"), None);
    assert_eq!(select(&Vec::new(), "README.md"), None);
    let links = extract(&both, &Arc::new("README.md".to_string()), b"x [a](b)\n").unwrap();
    assert_eq!(found(&links), vec![(1, "b".to_string())]);
}

#[test]
fn a_file_of_no_category_holds_no_links() {
    let file = Arc::new("notes.txt".to_string());
    let links = extract(&categories(), &file, b"/// [a](./a.md)\n[b](./b.md)\n").unwrap();
    assert!(links.is_empty());
    assert!(extract(&categories(), &file, b"\xff [a](b)\n").unwrap().is_empty());
    let odd = vec![DocFile::try_new(vec!["*.md"], "(a)|(b)", 2).unwrap()];
    assert!(extract(&odd, &file, b"a\n").unwrap().is_empty());
    assert_eq!(extract(&odd, &Arc::new("x.md".to_string()), b"a\n"), Err(ScanError::Group(1)));
}

#[test]
fn extract_uses_the_pattern_of_the_category() {
    let text = b"/// [a](./a.md)\n[b](./b.md)\n";
    let rs = extract(&categories(), &Arc::new("src/x.rs".to_string()), text).unwrap();
    assert_eq!(found(&rs), vec![(1, "./a.md".to_string())]);
    let md = extract(&categories(), &Arc::new("x.md".to_string()), text).unwrap();
    assert_eq!(found(&md), vec![(1, "./a.md".to_string()), (2, "./b.md".to_string())]);
}

#[test]
fn globs_are_tried_together() {
    let c = DocFile::try_new(vec!["docs/**/*.md", "README*", "*.{rst,txt}"], MARKDOWN_LINK, 1).unwrap();
    assert!(c.is_match("docs/a/b/c.md"));
    assert!(c.is_match("README"));
    assert!(c.is_match("README.md"));
    assert!(c.is_match("notes.rst"));
    assert!(c.is_match("notes.txt"));
    assert!(!c.is_match("src/a.md"));
    assert!(!c.is_match("notes.rs"));
}

#[test]
fn a_glob_that_does_not_parse_spoils_the_list() {
    assert!(DocFile::try_new(vec!["[a"], MARKDOWN_LINK, 1).is_none());
    assert!(DocFile::try_new(vec!["*.md", "a{b"], MARKDOWN_LINK, 1).is_none());
    assert!(DocFile::try_new(vec!["[a", "*.md"], MARKDOWN_LINK, 1).is_none());
    assert!(DocFile::try_new(vec!["[a]"], MARKDOWN_LINK, 1).is_some());
}

#[test]
fn new_takes_globs_and_patterns_that_are_in_order() {
    let c = DocFile::new(vec!["*.md"], MARKDOWN_LINK, 1);
    assert!(c.is_match("a.md"));
    let links = c.iter_links(&Arc::new("a.md".to_string()), b"[x](y)").unwrap();
    assert_eq!(found(&links), vec![(1, "y".to_string())]);
}

#[test]
fn crlf_lines_are_counted_once() {
    let md = DocFile::try_new(vec!["*.md"], MARKDOWN_LINK, 1).unwrap();
    let links = md.iter_links(&Arc::new("a.md".to_string()), b"[a](b)\r\n\r\n[c](d)\r\n").unwrap();
    assert_eq!(found(&links), vec![(1, "b".to_string()), (3, "d".to_string())]);
}

#[test]
fn links_of_makes_a_link_for_every_target() {
    let file = Arc::new("docs/a.md".to_string());
    let lines = vec![
        (2, vec!["./a.md".to_string(), "http://b.example".to_string()]),
        (5, vec![]),
        (9, vec!["#top".to_string()]),
    ];
    let links = links_of(&file, &lines);
    assert_eq!(
        found(&links),
        vec![
            (2, "./a.md".to_string()),
            (2, "http://b.example".to_string()),
            (9, "#top".to_string()),
        ]
    );
    assert_eq!(links[1].kind, LinkKind::Http);
    assert!(links.iter().all(|l| l.status.is_none() && Arc::ptr_eq(&l.file, &file)));
    assert!(links_of(&file, &Vec::new()).is_empty());
}

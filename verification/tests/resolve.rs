use check_links::doc_file::DocFile;
use check_links::link::{Link, LinkStatus};
use check_links::resolve::{http_status, section_status, Event, Stage};
use check_links::error::ScanError;
use std::sync::Arc;

fn link(file: &str, lnum: u64, raw: &str) -> Link {
    Link::new(Arc::new(file.to_string()), lnum, raw.to_string())
}

fn received(code: u16) -> String {
    format!("received status code {}", code)
}

#[test]
fn success_codes_are_reachable() {
    assert_eq!(http_status(200), LinkStatus::Reachable);
    assert_eq!(http_status(204), LinkStatus::Reachable);
    assert_eq!(http_status(299), LinkStatus::Reachable);
    assert_eq!(http_status(302), LinkStatus::Reachable);
}

#[test]
fn gated_codes_are_questionable() {
    assert_eq!(http_status(401), LinkStatus::Questionable(received(401)));
    assert_eq!(http_status(403), LinkStatus::Questionable(received(403)));
    assert_eq!(http_status(405), LinkStatus::Questionable(received(405)));
    assert_eq!(http_status(406), LinkStatus::Questionable(received(406)));
}

#[test]
fn other_codes_are_unreachable() {
    assert_eq!(http_status(404), LinkStatus::Unreachable(Some("received status code 404".to_string())));
    assert_eq!(http_status(500), LinkStatus::Unreachable(Some(received(500))));
    assert_eq!(http_status(301), LinkStatus::Unreachable(Some(received(301))));
    assert_eq!(http_status(300), LinkStatus::Unreachable(Some(received(300))));
    assert_eq!(http_status(199), LinkStatus::Unreachable(Some(received(199))));
    assert_eq!(http_status(402), LinkStatus::Unreachable(Some(received(402))));
    assert_eq!(http_status(0), LinkStatus::Unreachable(Some(received(0))));
    assert_eq!(http_status(u16::MAX), LinkStatus::Unreachable(Some(received(u16::MAX))));
}

#[test]
fn http_404_401_200() {
    let l = link("a.md", 1, "http://example.com/x");
    let stage = l.begin();
    assert_eq!(stage, Stage::Head { url: "http://example.com/x".to_string() });
    match stage.clone().advance(Event::Response(404)) {
        Stage::Done(LinkStatus::Unreachable(Some(reason))) => assert!(reason.contains("404")),
        other => panic!("{:?}", other),
    }
    assert!(matches!(
        stage.clone().advance(Event::Response(401)),
        Stage::Done(LinkStatus::Questionable(_))
    ));
    assert_eq!(stage.advance(Event::Response(200)), Stage::Done(LinkStatus::Reachable));
}

#[test]
fn http_timeout_and_failure() {
    let stage = link("a.md", 1, "https://example.com").begin();
    assert_eq!(
        stage.clone().advance(Event::TimedOut),
        Stage::Done(LinkStatus::Unreachable(Some("timeout".to_string())))
    );
    assert_eq!(stage.advance(Event::Failed), Stage::Done(LinkStatus::Unreachable(None)));
}

#[test]
fn local_link_is_looked_for_beside_its_file() {
    assert_eq!(
        link("docs/guide/a.md", 1, "../b.md").begin(),
        Stage::Exists { target: "docs/guide/../b.md".to_string(), section: None }
    );
    assert_eq!(
        link("a.md", 1, "b.md").begin(),
        Stage::Exists { target: "b.md".to_string(), section: None }
    );
    assert_eq!(
        link("docs/a.md", 1, "/etc/hosts").begin(),
        Stage::Exists { target: "/etc/hosts".to_string(), section: None }
    );
    assert_eq!(
        link("/", 1, "b.md").begin(),
        Stage::Exists { target: "./b.md".to_string(), section: None }
    );
}

#[test]
fn existing_file_without_section_is_reachable() {
    let stage = link("docs/a.md", 1, "b.md").begin();
    assert_eq!(stage.advance(Event::Exists(true)), Stage::Done(LinkStatus::Reachable));
}

#[test]
fn missing_file_is_unreachable_without_reason() {
    let found = DocFile::try_new(vec!["*.md"], r"\[[^\[\]]+\]\(([^\(\)]+)\)", 1)
        .unwrap()
        .iter_links(&Arc::new("docs/a.md".to_string()), b"[x](./missing.md)\n")
        .unwrap();
    assert_eq!(found.len(), 1);
    let stage = found[0].begin();
    assert_eq!(stage, Stage::Exists { target: "docs/./missing.md".to_string(), section: None });
    assert_eq!(stage.advance(Event::Exists(false)), Stage::Done(LinkStatus::Unreachable(None)));
    let with_section = link("docs/a.md", 1, "./missing.md#intro").begin();
    assert_eq!(
        with_section.advance(Event::Exists(false)),
        Stage::Done(LinkStatus::Unreachable(None))
    );
}

#[test]
fn existing_heading_round_trip() {
    let found = DocFile::try_new(vec!["*.md"], r"\[[^\[\]]+\]\(([^\(\)]+)\)", 1)
        .unwrap()
        .iter_links(
            &Arc::new("docs/a.md".to_string()),
            b"intro\n[text](./real-file.md#existing-heading)\n",
        )
        .unwrap();
    assert_eq!(found.len(), 1);
    let mut l = found.into_iter().next().unwrap();
    assert_eq!(l.lnum, 2);
    let stage = l.begin();
    assert_eq!(
        stage,
        Stage::Exists {
            target: "docs/./real-file.md".to_string(),
            section: Some("existing-heading".to_string())
        }
    );
    let stage = stage.advance(Event::Exists(true));
    assert_eq!(
        stage,
        Stage::Read {
            path: "docs/./real-file.md".to_string(),
            name: "existing-heading".to_string(),
            own: false
        }
    );
    let stage = stage.advance(Event::Contents(b"# Title\n\n## Existing Heading\n\ntext\n".to_vec()));
    assert_eq!(stage, Stage::Done(LinkStatus::Reachable));
    if let Stage::Done(status) = stage {
        l.verify(status);
    }
    assert_eq!(l.status, Some(LinkStatus::Reachable));
}

#[test]
fn section_not_found_is_questionable() {
    let stage = link("docs/a.md", 1, "./b.md#no-such-part").begin();
    let stage = stage.advance(Event::Exists(true));
    let stage = stage.advance(Event::Contents(b"# Title\nsome text\n".to_vec()));
    assert_eq!(
        stage,
        Stage::Done(LinkStatus::Questionable("failed to resolve section #no-such-part".to_string()))
    );
}

#[test]
fn section_in_own_file() {
    let stage = link("docs/a.md", 7, "#usage").begin();
    assert_eq!(
        stage,
        Stage::Read { path: "docs/a.md".to_string(), name: "usage".to_string(), own: true }
    );
    assert_eq!(
        stage.clone().advance(Event::Contents(b"## USAGE\n".to_vec())),
        Stage::Done(LinkStatus::Reachable)
    );
    assert_eq!(
        stage.clone().advance(Event::Contents(b"".to_vec())),
        Stage::Done(LinkStatus::Questionable("failed to resolve section #usage".to_string()))
    );
    assert_eq!(
        stage.advance(Event::Unreadable("permission denied".to_string())),
        Stage::Done(LinkStatus::Questionable(
            "failed to find section #usage permission denied".to_string()
        ))
    );
}

#[test]
fn unreadable_target_is_questionable_with_detail() {
    let stage = link("docs/a.md", 1, "b.md#part").begin().advance(Event::Exists(true));
    assert_eq!(
        stage.advance(Event::Unreadable("is a directory".to_string())),
        Stage::Done(LinkStatus::Questionable(
            "failed to resolve section #part is a directory".to_string()
        ))
    );
}

#[test]
fn contents_that_cannot_be_searched_are_questionable() {
    let stage = link("docs/a.md", 1, "b.md#part").begin().advance(Event::Exists(true));
    match stage.advance(Event::Contents(b"\xff part\n".to_vec())) {
        Stage::Done(LinkStatus::Questionable(reason)) => {
            assert!(reason.starts_with("failed to resolve section #part "), "{}", reason)
        }
        other => panic!("{:?}", other),
    }
}

#[test]
fn events_that_do_not_answer_change_nothing() {
    let head = link("a.md", 1, "http://x").begin();
    assert_eq!(head.clone().advance(Event::Exists(true)), head);
    assert_eq!(head.clone().advance(Event::Contents(vec![])), head);
    let exists = link("a.md", 1, "b.md#c").begin();
    assert_eq!(exists.clone().advance(Event::Response(200)), exists);
    assert_eq!(exists.clone().advance(Event::Unreadable("x".to_string())), exists);
    let read = exists.advance(Event::Exists(true));
    assert_eq!(read.clone().advance(Event::Exists(true)), read);
    assert_eq!(read.clone().advance(Event::TimedOut), read);
    let done = Stage::Done(LinkStatus::Reachable);
    assert_eq!(done.clone().advance(Event::Response(404)), done);
    assert_eq!(done.clone().advance(Event::Exists(false)), done);
}

#[test]
fn a_verified_link_is_not_resolved_again() {
    let mut l = link("a.md", 1, "http://example.com");
    l.verify(LinkStatus::Unreachable(None));
    assert_eq!(l.begin(), Stage::Done(LinkStatus::Unreachable(None)));
    let mut l = link("a.md", 1, "b.md");
    l.verify(LinkStatus::Questionable("q".to_string()));
    assert_eq!(l.begin(), Stage::Done(LinkStatus::Questionable("q".to_string())));
}

#[test]
fn find_section_ignores_case_and_reads_hyphens_as_spaces() {
    assert_eq!(Link::find_section(b"# Existing Heading\n", "existing-heading"), Ok(true));
    assert_eq!(Link::find_section(b"x\nthe EXISTING heading here\n", "Existing-Heading"), Ok(true));
    assert_eq!(Link::find_section(b"# Existing-Heading\n", "existing-heading"), Ok(false));
    assert_eq!(Link::find_section(b"existing\nheading\n", "existing-heading"), Ok(false));
    assert_eq!(Link::find_section(b"", "x"), Ok(false));
    assert_eq!(Link::find_section(b"snake_case here", "snake_case"), Ok(true));
}

#[test]
fn find_section_fails_on_a_bad_pattern() {
    assert!(matches!(Link::find_section(b"text\n", "("), Err(ScanError::Pattern(_))));
}

#[test]
fn find_section_fails_on_bad_utf8_in_a_matching_line() {
    assert!(matches!(Link::find_section(b"\xff usage\n", "usage"), Err(ScanError::Search(_))));
    assert_eq!(Link::find_section(b"\xff other\nusage\n", "usage"), Ok(true));
}

#[test]
fn section_status_by_result() {
    assert_eq!(section_status("a-b", false, Ok(true)), LinkStatus::Reachable);
    assert_eq!(section_status("a-b", true, Ok(true)), LinkStatus::Reachable);
    assert_eq!(
        section_status("a-b", false, Ok(false)),
        LinkStatus::Questionable("failed to resolve section #a-b".to_string())
    );
    assert_eq!(
        section_status("a-b", true, Ok(false)),
        LinkStatus::Questionable("failed to resolve section #a-b".to_string())
    );
    assert_eq!(
        section_status("a-b", false, Err("why".to_string())),
        LinkStatus::Questionable("failed to resolve section #a-b why".to_string())
    );
    assert_eq!(
        section_status("a-b", true, Err("why".to_string())),
        LinkStatus::Questionable("failed to find section #a-b why".to_string())
    );
}

#[test]
fn scan_error_detail() {
    assert_eq!(ScanError::Pattern("p".to_string()).detail(), "p");
    assert_eq!(ScanError::Search("s".to_string()).detail(), "s");
    assert_eq!(ScanError::Group(3).detail(), "no target captured on line 3");
    assert_eq!(ScanError::Group(120).detail(), "no target captured on line 120");
}

#[test]
fn a_failed_search_gives_its_detail_as_the_reason() {
    let bytes = b"\xff part\n".to_vec();
    let detail = Link::find_section(&bytes, "part").unwrap_err().detail();
    assert!(!detail.is_empty());
    let stage = link("docs/a.md", 1, "b.md#part").begin().advance(Event::Exists(true));
    assert_eq!(
        stage.advance(Event::Contents(bytes.clone())),
        Stage::Done(LinkStatus::Questionable(format!("failed to resolve section #part {}", detail)))
    );
    let own = link("docs/a.md", 1, "#part").begin();
    assert_eq!(
        own.advance(Event::Contents(bytes)),
        Stage::Done(LinkStatus::Questionable(format!("failed to find section #part {}", detail)))
    );
}

#[test]
fn a_failed_search_says_the_same_each_time() {
    let first = Link::find_section(b"\xff part\n", "part");
    assert!(matches!(first, Err(ScanError::Search(_))));
    assert_eq!(first, Link::find_section(b"\xff part\n", "part"));
    let bad = Link::find_section(b"x\n", "(");
    assert!(matches!(bad, Err(ScanError::Pattern(_))));
    assert_eq!(bad, Link::find_section(b"other text\n", "("));
}

#[test]
fn find_section_reads_the_name_as_a_pattern() {
    assert_eq!(Link::find_section(b"abc\n", "a.c"), Ok(true));
    assert_eq!(Link::find_section(b"abc\n", "a\\.c"), Ok(false));
    assert_eq!(Link::find_section(b"a.c\n", "a\\.c"), Ok(true));
}

#[test]
fn local_link_with_only_a_marker_names_a_file() {
    assert_eq!(
        link("docs/a.md", 1, "b.md#").begin(),
        Stage::Exists { target: "docs/b.md#".to_string(), section: None }
    );
    assert_eq!(
        link("docs/a.md", 1, "").begin(),
        Stage::Exists { target: "docs/".to_string(), section: None }
    );
}

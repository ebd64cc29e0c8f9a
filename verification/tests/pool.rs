use check_links::link::Link;
use check_links::pool::Pool;
use std::sync::Arc;

fn link(raw: &str) -> Link {
    Link::new(Arc::new("a.md".to_string()), 1, raw.to_string())
}

#[test]
fn a_new_pool_is_idle() {
    let pool = Pool::new(3);
    assert_eq!(pool.limit(), 3);
    assert_eq!(pool.running(), 0);
    assert_eq!(pool.waiting(), 0);
    assert!(pool.is_idle());
}

#[test]
fn links_start_at_once_while_there_is_room() {
    let mut pool = Pool::new(2);
    assert_eq!(pool.submit(link("a")).map(|l| l.raw), Some("a".to_string()));
    assert_eq!(pool.submit(link("b")).map(|l| l.raw), Some("b".to_string()));
    assert_eq!(pool.running(), 2);
    assert_eq!(pool.waiting(), 0);
    assert!(!pool.is_idle());
}

#[test]
fn links_wait_when_the_pool_is_full() {
    let mut pool = Pool::new(1);
    assert!(pool.submit(link("a")).is_some());
    assert!(pool.submit(link("b")).is_none());
    assert!(pool.submit(link("c")).is_none());
    assert_eq!(pool.running(), 1);
    assert_eq!(pool.waiting(), 2);
    assert_eq!(pool.finish().map(|l| l.raw), Some("b".to_string()));
    assert_eq!(pool.running(), 1);
    assert_eq!(pool.waiting(), 1);
    assert_eq!(pool.finish().map(|l| l.raw), Some("c".to_string()));
    assert_eq!(pool.waiting(), 0);
    assert!(pool.finish().is_none());
    assert_eq!(pool.running(), 0);
    assert!(pool.is_idle());
}

#[test]
fn finishing_an_idle_pool_changes_nothing() {
    let mut pool = Pool::new(4);
    assert!(pool.finish().is_none());
    assert_eq!(pool.running(), 0);
    assert!(pool.is_idle());
    assert!(pool.submit(link("a")).is_some());
    assert_eq!(pool.running(), 1);
}

#[test]
fn every_link_is_started_once() {
    let mut pool = Pool::new(3);
    let mut started = Vec::new();
    for i in 0..10 {
        if let Some(l) = pool.submit(link(&format!("l{}", i))) {
            started.push(l.raw);
        }
        assert!(pool.running() <= 3);
    }
    while !pool.is_idle() {
        if let Some(l) = pool.finish() {
            started.push(l.raw);
        }
        assert!(pool.running() <= 3);
    }
    let expected: Vec<String> = (0..10).map(|i| format!("l{}", i)).collect();
    assert_eq!(started, expected);
}

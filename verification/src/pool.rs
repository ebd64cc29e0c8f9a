//! How many verifications run at once.
//!
//! A [`Pool`] does not run anything. It keeps count: a link that is handed
//! in is started at once while fewer than the limit are running, and waits
//! its turn otherwise; when a verification ends, the link that has waited
//! longest takes its place.

use crate::link::{Link, LinkView};
use std::collections::VecDeque;
use vstd::prelude::*;

verus! {

/// The links that are being verified, by number, and those that wait.
pub struct Pool {
    limit: usize,
    running: usize,
    waiting: VecDeque<Link>,
}

/// The mathematical value of a [`Pool`].
pub struct PoolView {
    /// How many verifications may run at once.
    pub limit: nat,
    /// How many are running.
    pub running: nat,
    /// The links that wait, the one that came first in front.
    pub waiting: Seq<LinkView>,
}

/// What holds of a new pool and stays true whatever is handed in and
/// whatever ends: no more verifications run than the limit allows, and no
/// link waits while there is room for it.
pub open spec fn in_bounds(pool: PoolView) -> bool {
    &&& 1 <= pool.limit
    &&& pool.running <= pool.limit
    &&& pool.waiting.len() > 0 ==> pool.running == pool.limit
}

/// How many links the pool holds: those that run and those that wait.
pub open spec fn in_hand(pool: PoolView) -> nat {
    pool.running + pool.waiting.len()
}

/// The pool after `link` was handed in.
pub open spec fn submitted(pool: PoolView, link: LinkView) -> PoolView {
    if pool.running < pool.limit {
        PoolView { running: pool.running + 1, ..pool }
    } else {
        PoolView { waiting: pool.waiting.push(link), ..pool }
    }
}

/// The pool after one verification has ended.
pub open spec fn finished(pool: PoolView) -> PoolView {
    if pool.waiting.len() > 0 {
        PoolView { waiting: pool.waiting.skip(1), ..pool }
    } else if pool.running > 0 {
        PoolView { running: (pool.running - 1) as nat, ..pool }
    } else {
        pool
    }
}

impl View for Pool {
    type V = PoolView;

    closed spec fn view(&self) -> PoolView {
        PoolView {
            limit: self.limit as nat,
            running: self.running as nat,
            waiting: self.waiting@.map_values(|l: Link| l@),
        }
    }
}

impl Pool {
    /// A pool in which nothing runs yet and at most `limit` verifications
    /// will run at once.
    pub fn new(limit: usize) -> (pool: Pool)
        requires
            limit >= 1,
        ensures
            pool@ == (PoolView { limit: limit as nat, running: 0, waiting: Seq::empty() }),
            in_bounds(pool@),
    {
        let pool = Pool { limit, running: 0, waiting: VecDeque::new() };
        assert(pool@.waiting =~= Seq::empty());
        pool
    }

    /// Hands a link in. Where there is room it comes back, to be started
    /// now; otherwise it is kept behind those that wait already.
    pub fn submit(&mut self, link: Link) -> (start: Option<Link>)
        ensures
            in_bounds(old(self)@) ==> in_bounds(final(self)@),
            final(self)@ == submitted(old(self)@, link@),
            start is Some == (old(self)@.running < old(self)@.limit),
            start matches Some(l) ==> l == link,
    {
        if self.running < self.limit {
            self.running = self.running + 1;
            Some(link)
        } else {
            self.waiting.push_back(link);
            assert(self@.waiting =~= old(self)@.waiting.push(link@));
            None
        }
    }

    /// Takes note that a verification has ended. Where a link waits, the
    /// one that has waited longest comes back, to be started in its place.
    pub fn finish(&mut self) -> (next: Option<Link>)
        ensures
            in_bounds(old(self)@) ==> in_bounds(final(self)@),
            final(self)@ == finished(old(self)@),
            next is Some == (old(self)@.waiting.len() > 0),
            next matches Some(l) ==> l@ == old(self)@.waiting[0],
    {
        match self.waiting.pop_front() {
            Some(link) => {
                assert(self@.waiting =~= old(self)@.waiting.skip(1));
                Some(link)
            },
            None => {
                assert(self@.waiting =~= old(self)@.waiting);
                if self.running > 0 {
                    self.running = self.running - 1;
                }
                None
            },
        }
    }

    /// How many verifications may run at once.
    pub fn limit(&self) -> (n: usize)
        ensures
            n == self@.limit,
    {
        self.limit
    }

    /// How many verifications are running.
    pub fn running(&self) -> (n: usize)
        ensures
            n == self@.running,
    {
        self.running
    }

    /// How many links wait.
    pub fn waiting(&self) -> (n: usize)
        ensures
            n == self@.waiting.len(),
    {
        self.waiting.len()
    }

    /// Whether nothing runs and nothing waits.
    pub fn is_idle(&self) -> (idle: bool)
        ensures
            idle == (in_hand(self@) == 0),
    {
        self.running == 0 && self.waiting.len() == 0
    }
}

/// No link is lost and the bounds are kept: handing a link in makes one
/// more in hand, and the end of a verification one fewer.
pub proof fn lemma_pool_keeps_count(pool: PoolView, link: LinkView)
    requires
        in_bounds(pool),
    ensures
        in_bounds(submitted(pool, link)),
        in_hand(submitted(pool, link)) == in_hand(pool) + 1,
        in_bounds(finished(pool)),
        in_hand(pool) > 0 ==> in_hand(finished(pool)) == in_hand(pool) - 1,
        in_hand(pool) == 0 ==> finished(pool) == pool,
{
}

/// Every link is started once, and in its turn: a link that is handed in
/// is started at once or becomes the last to wait, and the link that is
/// started when a verification ends is the first of those that waited.
pub proof fn lemma_pool_loses_nothing(pool: PoolView, link: LinkView)
    requires
        in_bounds(pool),
    ensures
        pool.running < pool.limit ==> submitted(pool, link).waiting == pool.waiting
            && pool.waiting.len() == 0,
        pool.running >= pool.limit ==> submitted(pool, link).waiting == pool.waiting.push(link)
            && submitted(pool, link).running == pool.running,
        pool.waiting.len() > 0 ==> seq![pool.waiting[0]] + finished(pool).waiting == pool.waiting
            && finished(pool).running == pool.running,
{
    if pool.waiting.len() > 0 {
        assert(seq![pool.waiting[0]] + pool.waiting.skip(1) =~= pool.waiting);
    }
}

/// Links are started in the order in which they were handed in: a link that
/// had to wait is started before every link that came after it.
pub proof fn lemma_pool_is_first_come_first_served(pool: PoolView, link: LinkView)
    requires
        in_bounds(pool),
        pool.waiting.len() > 0,
    ensures
        submitted(pool, link).waiting.last() == link,
        finished(submitted(pool, link)).waiting == finished(pool).waiting.push(link),
{
    assert(pool.waiting.push(link).skip(1) =~= pool.waiting.skip(1).push(link));
}

} // verus!

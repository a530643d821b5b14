use vstd::prelude::*;

verus! {

/// What an acquirer does next.
#[derive(Clone, Copy, Debug, PartialEq, Eq, Structural)]
pub enum Step {
    /// Run a health check on this idle link, then report it with `health_checked`.
    Check(u64),
    /// Open a new link, then report the outcome with `created`.
    Create,
    /// Suspend until a `Wake` names this acquirer.
    Wait,
    /// The link is leased to the acquirer; it hands it back with `release`.
    Lease(u64),
    /// Acquisition failed: no link could be opened.
    Failed,
}

/// A suspended acquirer to resume, and the step it resumes with.
#[derive(Clone, Copy, Debug, PartialEq, Eq, Structural)]
pub struct Wake {
    pub waiter: u64,
    pub step: Step,
}

/// The abstract state of a pool of links.
pub struct PoolState {
    /// How many links may exist at once.
    pub capacity: nat,
    /// Idle links, the most recently released last.
    pub idle: Seq<u64>,
    /// Links leased to a caller or under a health check.
    pub busy: Set<u64>,
    /// Links being opened.
    pub creating: nat,
    /// Suspended acquirers, the oldest first.
    pub waiters: Seq<u64>,
    /// The identity the next opened link gets.
    pub next_id: nat,
    /// Links dropped after a failed health check or a broken call.
    pub retired: Set<u64>,
}

impl PoolState {
    /// Links that exist or are being opened.
    pub open spec fn live(self) -> nat {
        self.idle.len() + self.busy.len() + self.creating
    }

    /// The pool owns `link`, idle or busy.
    pub open spec fn holds(self, link: u64) -> bool {
        self.idle.contains(link) || self.busy.contains(link)
    }

    /// The pool's invariant: links stay within the capacity, each link is
    /// either idle or busy and never dropped, identities are fresh, and
    /// acquirers wait only while every link that the capacity allows exists
    /// and none is idle.
    pub open spec fn wf(self) -> bool {
        &&& self.live() <= self.capacity
        &&& self.idle.no_duplicates()
        &&& self.busy.finite()
        &&& forall|i: int| 0 <= i < self.idle.len() ==> !self.busy.contains(#[trigger] self.idle[i])
        &&& forall|l: u64| #[trigger] self.holds(l) ==> l < self.next_id && !self.retired.contains(l)
        &&& forall|l: u64| #[trigger] self.retired.contains(l) ==> l < self.next_id
        &&& self.next_id <= u64::MAX
        &&& self.waiters.len() > 0 ==> self.idle.len() == 0 && self.live() == self.capacity
    }

    /// A pool of the given capacity that holds no link.
    pub open spec fn empty(capacity: nat) -> PoolState {
        PoolState {
            capacity,
            idle: Seq::empty(),
            busy: Set::empty(),
            creating: 0,
            waiters: Seq::empty(),
            next_id: 0,
            retired: Set::empty(),
        }
    }

    /// An acquirer arrives: it checks the most recently released idle link,
    /// else opens a link if the capacity allows, else waits.
    pub open spec fn acquire(self, waiter: u64) -> (PoolState, Step) {
        if self.idle.len() > 0 {
            let link = self.idle.last();
            (PoolState { idle: self.idle.drop_last(), busy: self.busy.insert(link), ..self }, Step::Check(link))
        } else if self.live() < self.capacity {
            (PoolState { creating: self.creating + 1, ..self }, Step::Create)
        } else {
            (PoolState { waiters: self.waiters.push(waiter), ..self }, Step::Wait)
        }
    }

    /// A health check of `link` came back: a healthy link is leased; a
    /// failed one is dropped for good and one replacement is opened in its place.
    pub open spec fn health_checked(self, link: u64, healthy: bool) -> (PoolState, Step) {
        if healthy {
            (self, Step::Lease(link))
        } else {
            (
                PoolState {
                    busy: self.busy.remove(link),
                    creating: self.creating + 1,
                    retired: self.retired.insert(link),
                    ..self
                },
                Step::Create,
            )
        }
    }

    /// An opening came back: a new link is leased; on failure the acquirer
    /// fails, and the room it held goes to the oldest waiter, if any.
    pub open spec fn created(self, opened: bool) -> (PoolState, Step, Option<Wake>) {
        if opened && self.next_id < u64::MAX {
            let link = self.next_id as u64;
            (
                PoolState {
                    busy: self.busy.insert(link),
                    creating: (self.creating - 1) as nat,
                    next_id: self.next_id + 1,
                    ..self
                },
                Step::Lease(link),
                None,
            )
        } else if self.waiters.len() > 0 {
            (
                PoolState { waiters: self.waiters.drop_first(), ..self },
                Step::Failed,
                Some(Wake { waiter: self.waiters[0], step: Step::Create }),
            )
        } else {
            (PoolState { creating: (self.creating - 1) as nat, ..self }, Step::Failed, None)
        }
    }

    /// A caller hands `link` back. A healthy link goes to the oldest waiter,
    /// else becomes idle. A broken one is dropped for good, and the oldest
    /// waiter, if any, opens a link in its place.
    pub open spec fn release(self, link: u64, broken: bool) -> (PoolState, Option<Wake>) {
        if broken {
            let rest = PoolState {
                busy: self.busy.remove(link),
                retired: self.retired.insert(link),
                ..self
            };
            if self.waiters.len() > 0 {
                (
                    PoolState { creating: self.creating + 1, waiters: self.waiters.drop_first(), ..rest },
                    Some(Wake { waiter: self.waiters[0], step: Step::Create }),
                )
            } else {
                (rest, None)
            }
        } else if self.waiters.len() > 0 {
            (
                PoolState { waiters: self.waiters.drop_first(), ..self },
                Some(Wake { waiter: self.waiters[0], step: Step::Check(link) }),
            )
        } else {
            (PoolState { busy: self.busy.remove(link), idle: self.idle.push(link), ..self }, None)
        }
    }
}

/// Every arrival keeps the pool well formed, the capacity bound included.
pub proof fn lemma_acquire_wf(p: PoolState, waiter: u64)
    requires
        p.wf(),
    ensures
        p.acquire(waiter).0.wf(),
{
    let q = p.acquire(waiter).0;
    if p.idle.len() > 0 {
        let link = p.idle.last();
        assert(p.idle.contains(link) && p.holds(link));
        assert(!p.busy.contains(link));
        assert(q.busy.len() == p.busy.len() + 1);
        assert(q.idle.no_duplicates()) by {
            assert forall|i: int, j: int| 0 <= i < q.idle.len() && 0 <= j < q.idle.len() && i != j
                implies q.idle[i] != q.idle[j] by {
                assert(q.idle[i] == p.idle[i] && q.idle[j] == p.idle[j]);
            }
        }
        assert forall|i: int| 0 <= i < q.idle.len() implies !q.busy.contains(#[trigger] q.idle[i]) by {
            assert(q.idle[i] == p.idle[i]);
            assert(p.idle[i] != link);
        }
        assert forall|l: u64| #[trigger] q.holds(l) implies l < q.next_id && !q.retired.contains(l) by {
            if q.idle.contains(l) {
                let j = choose|j: int| 0 <= j < q.idle.len() && q.idle[j] == l;
                assert(p.idle[j] == l && p.idle.contains(l) && p.holds(l));
            } else if l != link {
                assert(p.busy.contains(l) && p.holds(l));
            }
        }
        assert(q.live() <= q.capacity);
        assert(q.busy.finite());
        assert(q.retired == p.retired && q.next_id == p.next_id);
        assert(q.waiters.len() == 0);
    } else if p.live() < p.capacity {
        assert(q.live() <= q.capacity);
        assert(forall|l: u64| #[trigger] q.holds(l) ==> p.holds(l));
    } else {
        assert(q.live() == q.capacity);
        assert(forall|l: u64| #[trigger] q.holds(l) ==> p.holds(l));
    }
}

/// Every health-check outcome keeps the pool well formed, the capacity bound included.
pub proof fn lemma_health_checked_wf(p: PoolState, link: u64, healthy: bool)
    requires
        p.wf(),
        p.busy.contains(link),
    ensures
        p.health_checked(link, healthy).0.wf(),
{
    let q = p.health_checked(link, healthy).0;
    if !healthy {
        assert(q.busy.len() + 1 == p.busy.len());
        assert(p.holds(link));
        assert forall|l: u64| #[trigger] q.holds(l) implies l < q.next_id && !q.retired.contains(l) by {
            assert(p.holds(l));
            if q.idle.contains(l) {
                let j = choose|j: int| 0 <= j < q.idle.len() && q.idle[j] == l;
                assert(!p.busy.contains(p.idle[j]));
            }
        }
        assert forall|l: u64| #[trigger] q.retired.contains(l) implies l < q.next_id by {
            if l != link {
                assert(p.retired.contains(l));
            }
        }
    }
}

/// Every opening outcome keeps the pool well formed, the capacity bound included.
pub proof fn lemma_created_wf(p: PoolState, opened: bool)
    requires
        p.wf(),
        p.creating > 0,
    ensures
        p.created(opened).0.wf(),
{
    let q = p.created(opened).0;
    if opened && p.next_id < u64::MAX {
        let link = p.next_id as u64;
        assert(!p.holds(link));
        assert(!p.busy.contains(link));
        assert(q.busy.len() == p.busy.len() + 1);
        assert forall|i: int| 0 <= i < q.idle.len() implies !q.busy.contains(#[trigger] q.idle[i]) by {
            assert(p.idle.contains(p.idle[i]) && p.holds(p.idle[i]));
        }
        assert forall|l: u64| #[trigger] q.holds(l) implies l < q.next_id && !q.retired.contains(l) by {
            if l != link {
                assert(p.holds(l));
            } else {
                assert(!p.retired.contains(l));
            }
        }
        assert forall|l: u64| #[trigger] q.retired.contains(l) implies l < q.next_id by {
            assert(p.retired.contains(l));
        }
    } else if p.waiters.len() > 0 {
        assert forall|l: u64| #[trigger] q.holds(l) implies l < q.next_id && !q.retired.contains(l) by {
            assert(p.holds(l));
        }
    } else {
        assert forall|l: u64| #[trigger] q.holds(l) implies l < q.next_id && !q.retired.contains(l) by {
            assert(p.holds(l));
        }
    }
}

/// Every hand-back keeps the pool well formed, the capacity bound included.
pub proof fn lemma_release_wf(p: PoolState, link: u64, broken: bool)
    requires
        p.wf(),
        p.busy.contains(link),
    ensures
        p.release(link, broken).0.wf(),
{
    let q = p.release(link, broken).0;
    assert(p.holds(link));
    if broken || p.waiters.len() == 0 {
        assert(p.busy.remove(link).len() + 1 == p.busy.len());
    }
    if !broken && p.waiters.len() == 0 {
        assert(!p.idle.contains(link)) by {
            if p.idle.contains(link) {
                let j = choose|j: int| 0 <= j < p.idle.len() && p.idle[j] == link;
                assert(!p.busy.contains(p.idle[j]));
            }
        }
        assert forall|i: int| 0 <= i < q.idle.len() implies !q.busy.contains(#[trigger] q.idle[i]) by {
            if i < p.idle.len() {
                assert(q.idle[i] == p.idle[i]);
            }
        }
    }
    assert forall|l: u64| #[trigger] q.holds(l) implies l < q.next_id && !q.retired.contains(l) by {
        if l != link {
            if q.idle.contains(l) {
                let j = choose|j: int| 0 <= j < q.idle.len() && q.idle[j] == l;
                if j < p.idle.len() {
                    assert(p.idle[j] == l);
                }
            }
            assert(p.holds(l));
        } else {
            assert(p.holds(l));
        }
    }
    assert forall|l: u64| #[trigger] q.retired.contains(l) implies l < q.next_id by {
        if l != link {
            assert(p.retired.contains(l));
        }
    }
}

/// Links never outnumber the capacity, and an acquirer is suspended exactly
/// when no link is idle and every link that the capacity allows exists.
pub proof fn lemma_capacity_bound(p: PoolState, waiter: u64)
    requires
        p.wf(),
    ensures
        p.live() <= p.capacity,
        p.acquire(waiter).0.live() <= p.capacity,
        p.acquire(waiter).1 is Wait <==> (p.idle.len() == 0 && p.live() == p.capacity),
{
    lemma_acquire_wf(p, waiter);
}

/// A link handed back healthy is reused at once: with nobody waiting, the
/// next acquirer checks that very link and leases it when the check passes;
/// otherwise it goes straight to the oldest waiter.
pub proof fn lemma_release_then_reuse(p: PoolState, link: u64, waiter: u64)
    requires
        p.wf(),
        p.busy.contains(link),
    ensures
        p.waiters.len() == 0 ==> {
            let q = p.release(link, false).0;
            &&& q.acquire(waiter).1 == Step::Check(link)
            &&& q.acquire(waiter).0.busy.contains(link)
            &&& q.acquire(waiter).0.health_checked(link, true).1 == Step::Lease(link)
        },
        p.waiters.len() > 0 ==> p.release(link, false).1 == Some(
            Wake { waiter: p.waiters[0], step: Step::Check(link) },
        ),
{
}

/// A link that fails its health check is dropped for good, and the
/// acquirer opens exactly one replacement, whose outcome ends the
/// acquisition: a new link or a failure, never another check or opening.
pub proof fn lemma_failed_check_replaced_once(p: PoolState, link: u64, opened: bool)
    requires
        p.wf(),
        p.busy.contains(link),
    ensures
        p.health_checked(link, false).1 == Step::Create,
        p.health_checked(link, false).0.retired.contains(link),
        !p.health_checked(link, false).0.holds(link),
        p.health_checked(link, false).0.created(opened).1 is Lease
            || p.health_checked(link, false).0.created(opened).1 is Failed,
        p.health_checked(link, false).0.created(opened).1 != Step::Lease(link),
{
    let q = p.health_checked(link, false).0;
    lemma_health_checked_wf(p, link, false);
    assert(q.retired.contains(link));
}

/// A dropped link is never handed out again: no step checks or leases it,
/// and it stays dropped.
pub proof fn lemma_retired_stays_out(
    p: PoolState,
    link: u64,
    other: u64,
    waiter: u64,
    flag: bool,
)
    requires
        p.wf(),
        p.retired.contains(link),
    ensures
        p.acquire(waiter).1 != Step::Check(link),
        p.acquire(waiter).0.retired.contains(link),
        p.created(flag).1 != Step::Lease(link),
        p.created(flag).0.retired.contains(link),
        p.busy.contains(other) ==> p.health_checked(other, flag).1 != Step::Lease(link),
        p.busy.contains(other) ==> p.health_checked(other, flag).0.retired.contains(link),
        p.busy.contains(other) ==> p.release(other, flag).0.retired.contains(link),
        p.busy.contains(other) ==> p.release(other, flag).1 != Some(
            Wake { waiter: p.waiters[0], step: Step::Check(link) },
        ),
{
    if p.idle.len() > 0 {
        assert(p.idle.contains(p.idle.last()) && p.holds(p.idle.last()));
    }
    if p.busy.contains(other) {
        assert(p.holds(other));
    }
}

proof fn lemma_remove_unique(s: Seq<u64>, i: int)
    requires
        s.no_duplicates(),
        0 <= i < s.len(),
    ensures
        s.remove(i).no_duplicates(),
        s.remove(i).to_set() == s.to_set().remove(s[i]),
        s.remove(i).len() + 1 == s.len(),
{
    let r = s.remove(i);
    assert forall|a: int, b: int| 0 <= a < r.len() && 0 <= b < r.len() && a != b implies r[a] != r[b] by {
        let a2 = if a < i { a } else { a + 1 };
        let b2 = if b < i { b } else { b + 1 };
        assert(r[a] == s[a2] && r[b] == s[b2]);
    }
    assert forall|x: u64| r.to_set().contains(x) <==> s.to_set().remove(s[i]).contains(x) by {
        if r.contains(x) {
            let a = choose|a: int| 0 <= a < r.len() && r[a] == x;
            let a2 = if a < i { a } else { a + 1 };
            assert(s[a2] == x);
        }
        if s.contains(x) && x != s[i] {
            let a = choose|a: int| 0 <= a < s.len() && s[a] == x;
            if a < i {
                assert(r[a] == x);
            } else {
                assert(a != i);
                assert(r[a - 1] == x);
            }
        }
    }
    assert(r.to_set() =~= s.to_set().remove(s[i]));
}

proof fn lemma_push_unique(s: Seq<u64>, x: u64)
    requires
        s.no_duplicates(),
        !s.contains(x),
    ensures
        s.push(x).no_duplicates(),
        s.push(x).to_set() == s.to_set().insert(x),
{
    let r = s.push(x);
    assert forall|a: int, b: int| 0 <= a < r.len() && 0 <= b < r.len() && a != b implies r[a] != r[b] by {
        if a < s.len() && b < s.len() {
            assert(r[a] == s[a] && r[b] == s[b]);
        } else if a < s.len() {
            assert(r[a] == s[a]);
        } else if b < s.len() {
            assert(r[b] == s[b]);
        }
    }
    assert forall|y: u64| r.to_set().contains(y) <==> s.to_set().insert(x).contains(y) by {
        if r.contains(y) && y != x {
            let a = choose|a: int| 0 <= a < r.len() && r[a] == y;
            assert(s[a] == y);
        }
        if s.contains(y) {
            let a = choose|a: int| 0 <= a < s.len() && s[a] == y;
            assert(r[a] == y);
        }
        if y == x {
            assert(r[s.len() as int] == x);
        }
    }
    assert(r.to_set() =~= s.to_set().insert(x));
}

/// Where `x` stands in `v`, if it does.
fn position_of(v: &Vec<u64>, x: u64) -> (r: Option<usize>)
    ensures
        r matches Some(i) ==> i < v.len() && v@[i as int] == x,
        r is None ==> !v@.contains(x),
{
    let mut i: usize = 0;
    while i < v.len()
        invariant
            i <= v.len(),
            forall|j: int| 0 <= j < i ==> v@[j] != x,
        decreases v.len() - i,
    {
        if v[i] == x {
            return Some(i);
        }
        i = i + 1;
    }
    None
}

/// A bounded pool of bus links, kept as identities: the caller owns the
/// connections and follows the steps that the pool hands out.
pub struct LinkPool {
    capacity: usize,
    idle: Vec<u64>,
    busy: Vec<u64>,
    creating: usize,
    waiters: Vec<u64>,
    next_id: u64,
    retired: Ghost<Set<u64>>,
}

impl View for LinkPool {
    type V = PoolState;

    closed spec fn view(&self) -> PoolState {
        PoolState {
            capacity: self.capacity as nat,
            idle: self.idle@,
            busy: self.busy@.to_set(),
            creating: self.creating as nat,
            waiters: self.waiters@,
            next_id: self.next_id as nat,
            retired: self.retired@,
        }
    }
}

impl LinkPool {
    /// The abstract state is well formed and no link is listed twice.
    pub closed spec fn wf(&self) -> bool {
        &&& self@.wf()
        &&& self.busy@.no_duplicates()
    }

    /// An empty pool that lets at most `capacity` links exist at once.
    pub fn new(capacity: usize) -> (r: LinkPool)
        ensures
            r.wf(),
            r@ == PoolState::empty(capacity as nat),
    {
        let r = LinkPool {
            capacity,
            idle: Vec::new(),
            busy: Vec::new(),
            creating: 0,
            waiters: Vec::new(),
            next_id: 0,
            retired: Ghost(Set::empty()),
        };
        assert(r.busy@.to_set() =~= Set::empty());
        assert(r@ =~= PoolState::empty(capacity as nat));
        r
    }

    /// How many links may exist at once.
    pub fn capacity(&self) -> (r: usize)
        ensures
            r as nat == self@.capacity,
    {
        self.capacity
    }

    /// How many links exist or are being opened.
    pub fn size(&self) -> (r: usize)
        requires
            self.wf(),
        ensures
            r as nat == self@.live(),
    {
        proof {
            self.busy@.unique_seq_to_set();
        }
        self.idle.len() + self.busy.len() + self.creating
    }

    /// How many links are idle.
    pub fn idle_count(&self) -> (r: usize)
        ensures
            r as nat == self@.idle.len(),
    {
        self.idle.len()
    }

    /// How many acquirers are suspended.
    pub fn waiting(&self) -> (r: usize)
        ensures
            r as nat == self@.waiters.len(),
    {
        self.waiters.len()
    }

    /// How many links are being opened.
    pub fn opening(&self) -> (r: usize)
        ensures
            r as nat == self@.creating,
    {
        self.creating
    }

    /// Whether `link` is leased or under a health check.
    pub fn is_busy(&self, link: u64) -> (r: bool)
        ensures
            r == self@.busy.contains(link),
    {
        position_of(&self.busy, link).is_some()
    }

    /// An acquirer, known to the caller as `waiter`, asks for a link. An idle
    /// link is health-checked on every checkout, which costs one round trip per
    /// lease and keeps broken links from reaching callers.
    pub fn acquire(&mut self, waiter: u64) -> (r: Step)
        requires
            old(self).wf(),
        ensures
            final(self).wf(),
            (final(self)@, r) == old(self)@.acquire(waiter),
    {
        proof {
            lemma_acquire_wf(self@, waiter);
            self.busy@.unique_seq_to_set();
        }
        let ghost before = self@;
        if self.idle.len() > 0 {
            let link = match self.idle.pop() {
                Some(l) => l,
                None => 0,
            };
            proof {
                assert(before.idle.contains(link) && before.holds(link));
                assert(!self.busy@.contains(link));
                lemma_push_unique(self.busy@, link);
            }
            self.busy.push(link);
            assert(self@ =~= before.acquire(waiter).0);
            Step::Check(link)
        } else if self.idle.len() + self.busy.len() + self.creating < self.capacity {
            self.creating = self.creating + 1;
            assert(self@ =~= before.acquire(waiter).0);
            Step::Create
        } else {
            self.waiters.push(waiter);
            assert(self@ =~= before.acquire(waiter).0);
            Step::Wait
        }
    }

    /// The health check of `link` came back.
    pub fn health_checked(&mut self, link: u64, healthy: bool) -> (r: Step)
        requires
            old(self).wf(),
            old(self)@.busy.contains(link),
        ensures
            final(self).wf(),
            (final(self)@, r) == old(self)@.health_checked(link, healthy),
    {
        proof {
            lemma_health_checked_wf(self@, link, healthy);
        }
        if healthy {
            return Step::Lease(link);
        }
        let ghost before = self@;
        let i = match position_of(&self.busy, link) {
            Some(i) => i,
            None => 0,
        };
        proof {
            lemma_remove_unique(self.busy@, i as int);
            self.busy@.unique_seq_to_set();
            self.busy@.remove(i as int).unique_seq_to_set();
        }
        self.busy.remove(i);
        self.creating = self.creating + 1;
        self.retired = Ghost(self.retired@.insert(link));
        assert(self@ =~= before.health_checked(link, healthy).0);
        Step::Create
    }

    /// An opening of a link came back; `opened` tells whether it succeeded.
    pub fn created(&mut self, opened: bool) -> (r: (Step, Option<Wake>))
        requires
            old(self).wf(),
            old(self)@.creating > 0,
        ensures
            final(self).wf(),
            (final(self)@, r.0, r.1) == old(self)@.created(opened),
    {
        proof {
            lemma_created_wf(self@, opened);
        }
        let ghost before = self@;
        if opened && self.next_id < u64::MAX {
            let link = self.next_id;
            proof {
                assert(!before.holds(link));
                lemma_push_unique(self.busy@, link);
            }
            self.busy.push(link);
            self.creating = self.creating - 1;
            self.next_id = self.next_id + 1;
            assert(self@ =~= before.created(opened).0);
            (Step::Lease(link), None)
        } else if self.waiters.len() > 0 {
            let w = self.waiters.remove(0);
            assert(self@ =~= before.created(opened).0);
            (Step::Failed, Some(Wake { waiter: w, step: Step::Create }))
        } else {
            self.creating = self.creating - 1;
            assert(self@ =~= before.created(opened).0);
            (Step::Failed, None)
        }
    }

    /// A caller hands `link` back; `broken` tells whether the link failed
    /// under it.
    pub fn release(&mut self, link: u64, broken: bool) -> (r: Option<Wake>)
        requires
            old(self).wf(),
            old(self)@.busy.contains(link),
        ensures
            final(self).wf(),
            (final(self)@, r) == old(self)@.release(link, broken),
    {
        proof {
            lemma_release_wf(self@, link, broken);
        }
        let ghost before = self@;
        if !broken && self.waiters.len() > 0 {
            let w = self.waiters.remove(0);
            assert(self@ =~= before.release(link, broken).0);
            return Some(Wake { waiter: w, step: Step::Check(link) });
        }
        let i = match position_of(&self.busy, link) {
            Some(i) => i,
            None => 0,
        };
        proof {
            lemma_remove_unique(self.busy@, i as int);
            self.busy@.unique_seq_to_set();
        }
        self.busy.remove(i);
        if broken {
            self.retired = Ghost(self.retired@.insert(link));
            if self.waiters.len() > 0 {
                let w = self.waiters.remove(0);
                proof {
                    self.busy@.unique_seq_to_set();
                }
                self.creating = self.creating + 1;
                assert(self@ =~= before.release(link, broken).0);
                Some(Wake { waiter: w, step: Step::Create })
            } else {
                assert(self@ =~= before.release(link, broken).0);
                None
            }
        } else {
            proof {
                assert(!self.idle@.contains(link)) by {
                    if self.idle@.contains(link) {
                        let j = choose|j: int| 0 <= j < self.idle@.len() && self.idle@[j] == link;
                        assert(!before.busy.contains(before.idle[j]));
                    }
                }
            }
            self.idle.push(link);
            assert(self@ =~= before.release(link, broken).0);
            None
        }
    }
}

} // verus!

//! The two primitives every subsystem shares its global state through: a cell
//! that runs its producer once, on first access, and a lock that hands out at
//! most one accessor at a time.

use vstd::prelude::*;

verus! {

/// A value computed on demand by a producer that runs at most once.
#[verifier::reject_recursive_types(T)]
pub struct LazyLock<T, F: Fn() -> T> {
    value: Option<T>,
    initialiser: F,
    runs: Ghost<nat>,
}

impl<T, F: Fn() -> T> LazyLock<T, F> {
    /// The producer this cell was made with.
    pub closed spec fn producer(&self) -> F {
        self.initialiser
    }

    /// The value stored so far, if the producer has run.
    pub closed spec fn stored(&self) -> Option<T> {
        self.value
    }

    /// How many times the producer has been run.
    pub closed spec fn runs(&self) -> nat {
        self.runs@
    }

    /// The producer has run once exactly when a value is stored, and never more.
    pub open spec fn wf(&self) -> bool {
        self.runs() == (if self.stored() is Some { 1nat } else { 0nat })
    }

    pub fn new(initialiser: F) -> (r: Self)
        ensures
            r.wf(),
            r.stored() is None,
            r.runs() == 0,
            r.producer() == initialiser,
    {
        LazyLock { value: None, initialiser, runs: Ghost(0) }
    }

    /// Whether the producer has already run.
    pub fn is_initialised(&self) -> (r: bool)
        ensures
            r == self.stored() is Some,
    {
        self.value.is_some()
    }

    /// Returns the stored value, running the producer first if this is the
    /// first access.
    pub fn get(&mut self) -> (r: &T)
        requires
            old(self).wf(),
            old(self).stored() is None ==> call_requires(old(self).producer(), ()),
        ensures
            get_step(*old(self), *final(self), *r),
    {
        if self.value.is_none() {
            let v = (self.initialiser)();
            self.value = Some(v);
            self.runs = Ghost(self.runs@ + 1);
        }
        self.value.as_ref().unwrap()
    }
}

/// What one access to a cell does: the producer runs only on a cell that
/// holds nothing yet, and every access returns the value the cell then holds.
pub open spec fn get_step<T, F: Fn() -> T>(
    pre: LazyLock<T, F>,
    post: LazyLock<T, F>,
    r: T,
) -> bool {
    &&& post.wf()
    &&& post.producer() == pre.producer()
    &&& post.stored() == Some(r)
    &&& pre.stored() is Some ==> post.stored() == pre.stored() && post.runs() == pre.runs()
    &&& pre.stored() is None ==> call_ensures(pre.producer(), (), r) && post.runs() == 1
}

/// Every access to a cell returns the same value, and the producer has run
/// exactly once after the first: `cells` are the states of one cell one access
/// after another, and `rs` what each access returned.
pub proof fn lemma_single_initialization<T, F: Fn() -> T>(
    cells: Seq<LazyLock<T, F>>,
    rs: Seq<T>,
)
    requires
        cells.len() == rs.len() + 1,
        cells[0].wf(),
        forall|i: int| 0 <= i < rs.len() ==> #[trigger] get_step(cells[i], cells[i + 1], rs[i]),
    ensures
        forall|i: int| 0 <= i < rs.len() ==> #[trigger] rs[i] == rs[0],
        rs.len() > 0 ==> cells.last().runs() == 1 && cells.last().stored() == Some(rs[0]),
        cells[0].stored() is Some ==> forall|i: int|
            0 <= i < cells.len() ==> #[trigger] cells[i].stored() == cells[0].stored(),
    decreases rs.len(),
{
    if rs.len() > 0 {
        let n = rs.len() - 1;
        let cs = cells.subrange(0, n + 1);
        let rp = rs.subrange(0, n);
        assert forall|i: int| 0 <= i < rp.len() implies #[trigger] get_step(cs[i], cs[i + 1], rp[i]) by {
            assert(get_step(cells[i], cells[i + 1], rs[i]));
        }
        lemma_single_initialization(cs, rp);
        assert(get_step(cells[n], cells[n + 1], rs[n]));
        if n > 0 {
            let m = n - 1;
            assert(get_step(cells[m], cells[m + 1], rs[m]));
            assert(rp[m] == rs[m]);
        }
        assert forall|i: int| 0 <= i < rs.len() implies #[trigger] rs[i] == rs[0] by {
            if i < n {
                assert(rp[i] == rs[i]);
                assert(rp[i] == rp[0]);
            }
        }
        assert forall|i: int| 0 <= i < cells.len() && cells[0].stored() is Some
            implies #[trigger] cells[i].stored() == cells[0].stored() by {
            if i <= n {
                assert(cs[i] == cells[i]);
            }
        }
    }
}

/// Where a cell shared between execution contexts stands.
#[derive(Clone, Copy, PartialEq, Eq, Structural, Debug)]
pub enum LazyPhase {
    Uninit,
    Initialising,
    Ready,
}

/// What a context does on the cell, each one taken as a single atomic step.
#[derive(Clone, Copy, PartialEq, Eq, Structural, Debug)]
pub enum LazyEvent {
    /// The context claimed the cell and runs the producer.
    Produce,
    /// Another context holds the claim: spin.
    Wait,
    /// The value is published: read it.
    Read,
    /// The claiming context stored the value and published it.
    Publish,
}

pub open spec fn access_spec(phase: LazyPhase) -> (LazyPhase, LazyEvent) {
    match phase {
        LazyPhase::Uninit => (LazyPhase::Initialising, LazyEvent::Produce),
        LazyPhase::Initialising => (LazyPhase::Initialising, LazyEvent::Wait),
        LazyPhase::Ready => (LazyPhase::Ready, LazyEvent::Read),
    }
}

/// One access to a shared cell: the claim and the check are a single
/// compare-and-swap, so only the context that finds the cell untouched
/// produces.
pub fn access(phase: LazyPhase) -> (r: (LazyPhase, LazyEvent))
    ensures
        r == access_spec(phase),
{
    match phase {
        LazyPhase::Uninit => (LazyPhase::Initialising, LazyEvent::Produce),
        LazyPhase::Initialising => (LazyPhase::Initialising, LazyEvent::Wait),
        LazyPhase::Ready => (LazyPhase::Ready, LazyEvent::Read),
    }
}

/// The claiming context publishes the value it produced.
pub fn publish(phase: LazyPhase) -> (r: LazyPhase)
    requires
        phase == LazyPhase::Initialising,
    ensures
        r == LazyPhase::Ready,
{
    LazyPhase::Ready
}

/// One step of some context on the shared phase.
pub open spec fn phase_step(pre: LazyPhase, post: LazyPhase, e: LazyEvent) -> bool {
    if e == LazyEvent::Publish {
        pre == LazyPhase::Initialising && post == LazyPhase::Ready
    } else {
        access_spec(pre) == (post, e)
    }
}

/// How many producer runs a run of events holds.
pub open spec fn produce_count(events: Seq<LazyEvent>) -> nat
    decreases events.len(),
{
    if events.len() == 0 {
        0
    } else {
        produce_count(events.drop_last()) + (if events.last() == LazyEvent::Produce { 1nat } else { 0nat })
    }
}

/// However the steps of any number of contexts interleave, the producer runs
/// at most once, it runs before any value is published or read, and once the
/// cell is ready it has run exactly once.
pub proof fn lemma_one_producer(phases: Seq<LazyPhase>, events: Seq<LazyEvent>)
    requires
        phases.len() == events.len() + 1,
        phases[0] == LazyPhase::Uninit,
        forall|i: int| 0 <= i < events.len() ==> #[trigger] phase_step(phases[i], phases[i + 1], events[i]),
    ensures
        produce_count(events) <= 1,
        produce_count(events) == 0 <==> phases.last() == LazyPhase::Uninit,
    decreases events.len(),
{
    if events.len() > 0 {
        let n = events.len() - 1;
        let ps = phases.subrange(0, n + 1);
        let es = events.subrange(0, n);
        assert forall|i: int| 0 <= i < es.len() implies #[trigger] phase_step(ps[i], ps[i + 1], es[i]) by {
            assert(phase_step(phases[i], phases[i + 1], events[i]));
        }
        lemma_one_producer(ps, es);
        assert(phase_step(phases[n], phases[n + 1], events[n]));
        assert(events.drop_last() == es);
        assert(ps.last() == phases[n]);
    }
}

/// A lock over a value. While an accessor is out, the lock is held, holds
/// nothing itself, and refuses every other request.
///
/// A context that asks again for a lock it already holds waits for itself
/// forever; `lock` therefore asks that the lock be free.
pub struct Mutex<T> {
    value: Option<T>,
    locked: bool,
    id: Ghost<int>,
}

/// The one accessor of a held lock: it carries the guarded value until it is
/// handed back to the lock.
pub struct MutexGuard<T> {
    value: T,
    owner: Ghost<int>,
}

impl<T> Mutex<T> {
    /// Whether an accessor is out.
    pub closed spec fn is_locked(&self) -> bool {
        self.locked
    }

    /// The guarded value, while no accessor is out.
    pub closed spec fn content(&self) -> Option<T> {
        self.value
    }

    /// Which lock this is: a guard goes back only to the lock it came from.
    pub closed spec fn id(&self) -> int {
        self.id@
    }

    /// The flag is down exactly when the lock itself holds the value.
    pub open spec fn wf(&self) -> bool {
        self.is_locked() <==> self.content() is None
    }

    pub fn new(value: T) -> (r: Self)
        ensures
            r.wf(),
            !r.is_locked(),
            r.content() == Some(value),
    {
        Mutex { value: Some(value), locked: false, id: Ghost(arbitrary()) }
    }

    /// One attempt to take the lock: it succeeds exactly when the lock is free.
    pub fn try_lock(&mut self) -> (r: Option<MutexGuard<T>>)
        requires
            old(self).wf(),
        ensures
            try_lock_step(*old(self), *final(self), r),
    {
        if self.locked {
            None
        } else {
            self.locked = true;
            let v = self.value.take().unwrap();
            Some(MutexGuard { value: v, owner: self.id })
        }
    }

    /// Takes the lock, which must be free, and returns its accessor.
    pub fn lock(&mut self) -> (r: MutexGuard<T>)
        requires
            old(self).wf(),
            !old(self).is_locked(),
        ensures
            try_lock_step(*old(self), *final(self), Some(r)),
    {
        let g = self.try_lock();
        g.unwrap()
    }

    /// Hands the accessor back and releases the lock.
    pub fn unlock(&mut self, guard: MutexGuard<T>)
        requires
            old(self).wf(),
            old(self).is_locked(),
            guard.owner() == old(self).id(),
        ensures
            unlock_step(*old(self), guard, *final(self)),
    {
        self.value = Some(guard.value);
        self.locked = false;
    }
}

impl<T> MutexGuard<T> {
    /// The guarded value as this accessor holds it.
    pub closed spec fn view_value(&self) -> T {
        self.value
    }

    /// The lock this accessor belongs to.
    pub closed spec fn owner(&self) -> int {
        self.owner@
    }

    pub fn get(&self) -> (r: &T)
        ensures
            *r == self.view_value(),
    {
        &self.value
    }

    /// Replaces the guarded value.
    pub fn set(&mut self, value: T)
        ensures
            final(self).view_value() == value,
            final(self).owner() == old(self).owner(),
    {
        self.value = value;
    }
}

/// What one attempt to take a lock does.
pub open spec fn try_lock_step<T>(pre: Mutex<T>, post: Mutex<T>, r: Option<MutexGuard<T>>) -> bool {
    &&& post.wf()
    &&& post.id() == pre.id()
    &&& pre.is_locked() ==> r is None && post == pre
    &&& !pre.is_locked() ==> post.is_locked() && r is Some && r->0.owner() == pre.id()
        && pre.content() == Some(r->0.view_value())
}

/// What handing an accessor back does.
pub open spec fn unlock_step<T>(pre: Mutex<T>, guard: MutexGuard<T>, post: Mutex<T>) -> bool {
    &&& post.wf()
    &&& post.id() == pre.id()
    &&& !post.is_locked()
    &&& post.content() == Some(guard.view_value())
}

/// While an accessor of a lock is out, no attempt on that lock yields a
/// second one, however many are made.
pub proof fn lemma_mutual_exclusion<T>(
    held: Mutex<T>,
    guard: MutexGuard<T>,
    attempts: Seq<Mutex<T>>,
    rs: Seq<Option<MutexGuard<T>>>,
)
    requires
        held.wf(),
        attempts.len() == rs.len() + 2,
        try_lock_step(attempts[0], held, Some(guard)),
        attempts[1] == held,
        forall|i: int| 0 <= i < rs.len() ==> #[trigger] try_lock_step(attempts[i + 1], attempts[i + 2], rs[i]),
    ensures
        forall|i: int| 0 <= i < rs.len() ==> (#[trigger] rs[i]) is None,
        attempts.last() == held,
        guard.owner() == held.id(),
    decreases rs.len(),
{
    if rs.len() > 0 {
        let n = rs.len() - 1;
        let ap = attempts.subrange(0, n + 2);
        let rp = rs.subrange(0, n);
        assert forall|i: int| 0 <= i < rp.len() implies #[trigger] try_lock_step(ap[i + 1], ap[i + 2], rp[i]) by {
            assert(try_lock_step(attempts[i + 1], attempts[i + 2], rs[i]));
        }
        lemma_mutual_exclusion(held, guard, ap, rp);
        assert(try_lock_step(attempts[n + 1], attempts[n + 2], rs[n]));
        assert(ap.last() == attempts[n + 1]);
        assert forall|i: int| 0 <= i < rs.len() implies (#[trigger] rs[i]) is None by {
            if i < n {
                assert(rp[i] == rs[i]);
            }
        }
    }
}

/// A lock whose accessor has been handed back, on whatever path the holder
/// left by, can be taken again: the next attempt succeeds, with the value the
/// accessor left in it.
pub proof fn lemma_release_then_reacquire<T>(
    free: Mutex<T>,
    held: Mutex<T>,
    guard: MutexGuard<T>,
    released: Mutex<T>,
    again: Mutex<T>,
    r: Option<MutexGuard<T>>,
)
    requires
        free.wf(),
        try_lock_step(free, held, Some(guard)),
        unlock_step(held, guard, released),
        try_lock_step(released, again, r),
    ensures
        r is Some,
        r->0.view_value() == guard.view_value(),
        r->0.owner() == free.id(),
        again.is_locked(),
{
}

} // verus!

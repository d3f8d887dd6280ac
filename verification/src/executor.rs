//! The cooperative task scheduler.
//!
//! Tasks are identified by monotonically increasing ids.  The executor keeps
//! the set of admitted tasks and a bounded FIFO ready queue of ids; wakers
//! re-push a task's id onto that queue.  The futures themselves live with
//! the caller, which polls whatever id `next_ready` hands out and reports
//! completion back.  The ready queue is a `crossbeam_queue::ArrayQueue`,
//! the same lock-free bounded queue the interrupt-driven wakers push to.
use vstd::prelude::*;

verus! {

#[verifier::external_type_specification]
#[verifier::external_body]
#[verifier::reject_recursive_types(T)]
pub struct ExArrayQueue<T>(crossbeam_queue::ArrayQueue<T>);

/// The ids held by a ready queue, head first.
pub uninterp spec fn id_queue(q: crossbeam_queue::ArrayQueue<u64>) -> Seq<u64>;

/// The fixed capacity a ready queue was created with.
pub uninterp spec fn id_queue_cap(q: crossbeam_queue::ArrayQueue<u64>) -> nat;

/// Relies on crossbeam_queue::ArrayQueue::new: an empty queue of the given
/// capacity (which must be non-zero, or the constructor panics).
#[verifier::external_body]
fn id_queue_new(cap: usize) -> (q: crossbeam_queue::ArrayQueue<u64>)
    requires
        cap > 0,
    ensures
        id_queue(q) == Seq::<u64>::empty(),
        id_queue_cap(q) == cap,
{
    crossbeam_queue::ArrayQueue::new(cap)
}

/// Relies on crossbeam_queue::ArrayQueue::push_mut: appends at the tail,
/// or hands the value back when the queue is full.
#[verifier::external_body]
fn id_queue_push(q: &mut crossbeam_queue::ArrayQueue<u64>, v: u64) -> (ok: bool)
    ensures
        id_queue_cap(*final(q)) == id_queue_cap(*old(q)),
        id_queue(*old(q)).len() < id_queue_cap(*old(q)) ==> ok && id_queue(*final(q)) == id_queue(
            *old(q),
        ).push(v),
        id_queue(*old(q)).len() >= id_queue_cap(*old(q)) ==> !ok && id_queue(*final(q)) == id_queue(
            *old(q),
        ),
{
    q.push_mut(v).is_ok()
}

/// Relies on crossbeam_queue::ArrayQueue::pop_mut: removes and returns the
/// head, or `None` when the queue is empty.
#[verifier::external_body]
fn id_queue_pop(q: &mut crossbeam_queue::ArrayQueue<u64>) -> (r: Option<u64>)
    ensures
        id_queue_cap(*final(q)) == id_queue_cap(*old(q)),
        id_queue(*old(q)).len() > 0 ==> r == Some(id_queue(*old(q))[0]) && id_queue(*final(q))
            == id_queue(*old(q)).drop_first(),
        id_queue(*old(q)).len() == 0 ==> r is None && id_queue(*final(q)) == id_queue(*old(q)),
{
    q.pop_mut()
}

/// Relies on crossbeam_queue::ArrayQueue::is_empty.
#[verifier::external_body]
fn id_queue_is_empty(q: &crossbeam_queue::ArrayQueue<u64>) -> (r: bool)
    ensures
        r <==> id_queue(*q).len() == 0,
{
    q.is_empty()
}

/// Relies on crossbeam_queue::ArrayQueue::len.
#[verifier::external_body]
fn id_queue_len(q: &crossbeam_queue::ArrayQueue<u64>) -> (r: usize)
    ensures
        r == id_queue(*q).len(),
{
    q.len()
}

/// Capacity of the executor's ready queue and of the incoming-task queue.
pub const QUEUE_CAPACITY: usize = 100;

/// Queue of tasks admitted from other tasks, drained by the executor on
/// each round of its main loop.
pub struct TaskSpawner {
    pub pending: Vec<u64>,
}

impl TaskSpawner {
    pub fn new() -> (s: TaskSpawner)
        ensures
            s.pending@.len() == 0,
    {
        TaskSpawner { pending: Vec::new() }
    }
}

/// Hand a new task to the executor from anywhere; never blocks.  A full
/// incoming queue is a programming error, so the bound is a precondition.
pub fn spawn_task(spawner: &mut TaskSpawner, id: u64)
    requires
        old(spawner).pending@.len() < QUEUE_CAPACITY,
    ensures
        final(spawner).pending@ == old(spawner).pending@.push(id),
{
    spawner.pending.push(id);
}

/// The scheduler state: admitted task ids and the FIFO ready queue.
pub struct Executor {
    tasks: Vec<u64>,
    task_queue: crossbeam_queue::ArrayQueue<u64>,
}

impl Executor {
    /// The ids of admitted, not yet completed tasks, in admission order.
    pub closed spec fn live_view(&self) -> Seq<u64> {
        self.tasks@
    }

    /// The ready queue's contents, next-to-run first.
    pub closed spec fn queue_view(&self) -> Seq<u64> {
        id_queue(self.task_queue)
    }

    pub closed spec fn queue_cap(&self) -> nat {
        id_queue_cap(self.task_queue)
    }

    pub fn new() -> (e: Executor)
        ensures
            e.live_view() == Seq::<u64>::empty(),
            e.queue_view() == Seq::<u64>::empty(),
            e.queue_cap() == QUEUE_CAPACITY,
    {
        Executor { tasks: Vec::new(), task_queue: id_queue_new(QUEUE_CAPACITY) }
    }

    /// Admit a task and schedule it.  Admitting an id twice or overrunning
    /// the ready queue is a programming error, so both are preconditions.
    pub fn spawn(&mut self, id: u64)
        requires
            !old(self).live_view().contains(id),
            old(self).queue_view().len() < old(self).queue_cap(),
        ensures
            final(self).live_view() == old(self).live_view().push(id),
            final(self).queue_view() == old(self).queue_view().push(id),
            final(self).queue_cap() == old(self).queue_cap(),
    {
        self.tasks.push(id);
        id_queue_push(&mut self.task_queue, id);
    }

    /// What a waker does: re-push the task's id onto the ready queue.
    pub fn wake(&mut self, id: u64)
        requires
            old(self).queue_view().len() < old(self).queue_cap(),
        ensures
            final(self).queue_view() == old(self).queue_view().push(id),
            final(self).live_view() == old(self).live_view(),
            final(self).queue_cap() == old(self).queue_cap(),
    {
        id_queue_push(&mut self.task_queue, id);
    }

    /// Whether `id` is admitted and not yet completed.
    pub fn is_live(&self, id: u64) -> (r: bool)
        ensures
            r <==> self.live_view().contains(id),
    {
        let n = self.tasks.len();
        let mut i: usize = 0;
        while i < n
            invariant
                i <= n,
                n == self.tasks@.len(),
                forall|j: int| 0 <= j < i ==> self.tasks@[j] != id,
            decreases n - i,
        {
            if self.tasks[i] == id {
                return true;
            }
            i = i + 1;
        }
        false
    }

    /// The next task to poll: pop ids until one that still exists comes up,
    /// discarding ids of completed tasks.
    pub fn next_ready(&mut self) -> (r: Option<u64>)
        ensures
            final(self).live_view() == old(self).live_view(),
            final(self).queue_cap() == old(self).queue_cap(),
            r is None ==> final(self).queue_view().len() == 0 && forall|j: int|
                0 <= j < old(self).queue_view().len() ==> !old(self).live_view().contains(
                    #[trigger] old(self).queue_view()[j],
                ),
            r matches Some(id) ==> exists|k: int|
                0 <= k < old(self).queue_view().len() && old(self).queue_view()[k] == id
                    && old(self).live_view().contains(id) && final(self).queue_view() == old(self).queue_view().skip(k + 1) && forall|j: int|
                    0 <= j < k ==> !old(self).live_view().contains(
                        #[trigger] old(self).queue_view()[j],
                    ),
    {
        let ghost mut popped: int = 0;
        proof {
            assert(old(self).queue_view().skip(0) =~= old(self).queue_view());
        }
        loop
            invariant
                self.live_view() == old(self).live_view(),
                id_queue_cap(self.task_queue) == old(self).queue_cap(),
                0 <= popped <= old(self).queue_view().len(),
                self.queue_view() == old(self).queue_view().skip(popped),
                forall|j: int|
                    0 <= j < popped ==> !old(self).live_view().contains(
                        #[trigger] old(self).queue_view()[j],
                    ),
            decreases id_queue(self.task_queue).len(),
        {
            let r = id_queue_pop(&mut self.task_queue);
            match r {
                None => {
                    return None;
                },
                Some(id) => {
                    proof {
                        assert(old(self).queue_view().skip(popped).drop_first() =~= old(self).queue_view().skip(popped + 1));
                        assert(old(self).queue_view()[popped] == id);
                    }
                    if self.is_live(id) {
                        return Some(id);
                    }
                    proof {
                        popped = popped + 1;
                    }
                },
            }
        }
    }

    /// A polled task reported completion: forget its id.
    pub fn complete(&mut self, id: u64)
        ensures
            final(self).queue_view() == old(self).queue_view(),
            final(self).queue_cap() == old(self).queue_cap(),
            !old(self).live_view().contains(id) ==> final(self).live_view() == old(self).live_view(),
            old(self).live_view().contains(id) ==> exists|i: int|
                0 <= i < old(self).live_view().len() && old(self).live_view()[i] == id && (
                forall|j: int| 0 <= j < i ==> old(self).live_view()[j] != id) && final(self).live_view() == old(self).live_view().remove(i),
    {
        let n = self.tasks.len();
        let mut i: usize = 0;
        while i < n
            invariant
                i <= n,
                n == self.tasks@.len(),
                self.tasks@ == old(self).tasks@,
                self.queue_view() == old(self).queue_view(),
                id_queue_cap(self.task_queue) == old(self).queue_cap(),
                forall|j: int| 0 <= j < i ==> self.tasks@[j] != id,
            decreases n - i,
        {
            if self.tasks[i] == id {
                self.tasks.remove(i);
                return ;
            }
            i = i + 1;
        }
    }

    /// How many ids the ready queue holds; callers check it against
    /// `QUEUE_CAPACITY` before scheduling work.
    pub fn queue_len(&self) -> (n: usize)
        ensures
            n == self.queue_view().len(),
    {
        id_queue_len(&self.task_queue)
    }

    /// The executor's idle test: with an empty ready queue the CPU may halt
    /// until an interrupt wakes a task.
    pub fn idle(&self) -> (r: bool)
        ensures
            r <==> self.queue_view().len() == 0,
    {
        id_queue_is_empty(&self.task_queue)
    }

    /// Drain the incoming-task queue, admitting and scheduling every
    /// pending task in order.
    pub fn add_incoming_tasks(&mut self, spawner: &mut TaskSpawner)
        requires
            forall|i: int|
                0 <= i < old(spawner).pending@.len() ==> !old(self).live_view().contains(
                    #[trigger] old(spawner).pending@[i],
                ),
            old(spawner).pending@.no_duplicates(),
            old(self).queue_view().len() + old(spawner).pending@.len() <= old(self).queue_cap(),
        ensures
            final(spawner).pending@.len() == 0,
            final(self).live_view() == old(self).live_view() + old(spawner).pending@,
            final(self).queue_view() == old(self).queue_view() + old(spawner).pending@,
            final(self).queue_cap() == old(self).queue_cap(),
    {
        let n = spawner.pending.len();
        let mut i: usize = 0;
        proof {
            assert(old(self).live_view() + old(spawner).pending@.take(0) =~= old(self).live_view());
            assert(old(self).queue_view() + old(spawner).pending@.take(0) =~= old(self).queue_view());
        }
        while i < n
            invariant
                i <= n,
                n == spawner.pending@.len(),
                spawner.pending@ == old(spawner).pending@,
                forall|j: int|
                    0 <= j < n ==> !old(self).live_view().contains(
                        #[trigger] old(spawner).pending@[j],
                    ),
                old(spawner).pending@.no_duplicates(),
                old(self).queue_view().len() + n <= old(self).queue_cap(),
                self.live_view() == old(self).live_view() + old(spawner).pending@.take(i as int),
                self.queue_view() == old(self).queue_view() + old(spawner).pending@.take(i as int),
                id_queue_cap(self.task_queue) == old(self).queue_cap(),
            decreases n - i,
        {
            let id = spawner.pending[i];
            proof {
                assert(!self.live_view().contains(id)) by {
                    assert(forall|j: int|
                        0 <= j < i ==> old(spawner).pending@.take(i as int)[j] == old(spawner).pending@[j]);
                }
                assert(old(self).queue_view().len() + old(spawner).pending@.take(i as int).len()
                    < old(self).queue_cap());
            }
            self.spawn(id);
            proof {
                assert(old(self).live_view() + old(spawner).pending@.take(i as int).push(id)
                    =~= old(self).live_view() + old(spawner).pending@.take(i as int + 1));
                assert(old(self).queue_view() + old(spawner).pending@.take(i as int).push(id)
                    =~= old(self).queue_view() + old(spawner).pending@.take(i as int + 1));
                assert((old(self).live_view() + old(spawner).pending@.take(i as int)).push(id)
                    =~= old(self).live_view() + old(spawner).pending@.take(i as int).push(id));
                assert((old(self).queue_view() + old(spawner).pending@.take(i as int)).push(id)
                    =~= old(self).queue_view() + old(spawner).pending@.take(i as int).push(id));
            }
            i = i + 1;
        }
        proof {
            assert(old(spawner).pending@.take(n as int) =~= old(spawner).pending@);
        }
        spawner.pending.clear();
    }
}

/// One scheduler round with every task yielding: the task at the head of
/// the ready queue is polled, wakes itself, and returns to the tail.
pub open spec fn yield_step(q: Seq<u64>) -> Seq<u64> {
    if q.len() == 0 {
        q
    } else {
        q.drop_first().push(q[0])
    }
}

/// The ready queue after `n` such rounds.
pub open spec fn yield_steps(q: Seq<u64>, n: nat) -> Seq<u64>
    decreases n,
{
    if n == 0 {
        q
    } else {
        yield_steps(yield_step(q), (n - 1) as nat)
    }
}

/// After `n` rounds the queue is rotated by `n`.
proof fn lemma_yield_steps_rotate(q: Seq<u64>, n: nat)
    requires
        n <= q.len(),
    ensures
        yield_steps(q, n) == q.skip(n as int) + q.take(n as int),
    decreases n,
{
    if n == 0 {
        assert(q.skip(0) + q.take(0) =~= q);
    } else {
        lemma_yield_steps_rotate(q, (n - 1) as nat);
        let m = (n - 1) as int;
        let r = q.skip(m) + q.take(m);
        assert(r[0] == q[m]);
        assert(yield_step(r) =~= q.skip(m + 1) + q.take(m + 1));
        assert(yield_steps(q, n) == yield_steps(yield_step(q), (n - 1) as nat));
        lemma_yield_steps_commute(q, (n - 1) as nat);
    }
}

/// Stepping then iterating equals iterating then stepping.
proof fn lemma_yield_steps_commute(q: Seq<u64>, n: nat)
    ensures
        yield_steps(yield_step(q), n) == yield_step(yield_steps(q, n)),
    decreases n,
{
    if n > 0 {
        lemma_yield_steps_commute(yield_step(q), (n - 1) as nat);
    }
}

/// Executor fairness: with the ready queue holding tasks that each yield
/// once when polled, the `k`-th poll runs the task that started at queue
/// position `k` -- every ready task runs exactly once before any runs
/// twice.
pub proof fn lemma_executor_fairness(q: Seq<u64>, k: int)
    requires
        0 <= k < q.len(),
    ensures
        yield_steps(q, k as nat)[0] == q[k],
{
    lemma_yield_steps_rotate(q, k as nat);
    assert((q.skip(k) + q.take(k))[0] == q[k]);
}

/// With distinct ready tasks, no task is polled a second time until every
/// task has been polled once.
pub proof fn lemma_executor_fairness_distinct(q: Seq<u64>, j: int, k: int)
    requires
        q.no_duplicates(),
        0 <= j < k < q.len(),
    ensures
        yield_steps(q, j as nat)[0] != yield_steps(q, k as nat)[0],
{
    lemma_executor_fairness(q, j);
    lemma_executor_fairness(q, k);
}

} // verus!

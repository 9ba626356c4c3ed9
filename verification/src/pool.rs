//! A bounded pool of workers over a list of jobs: which job goes out next, how
//! many may be out at a time, and when the work is over. The caller runs the workers.

use vstd::prelude::*;

verus! {

/// How many workers a concurrency limit stands for: the limit, but at least one.
pub fn worker_count(concurrent_limit: usize) -> (r: usize)
    ensures
        r == if concurrent_limit == 0 {
            1
        } else {
            concurrent_limit as int
        },
{
    if concurrent_limit == 0 {
        1
    } else {
        concurrent_limit
    }
}

/// How many jobs may wait in the queue between the feeder and the workers: twice
/// the number of workers, or as near to that as the machine's numbers reach.
pub fn queue_capacity(workers: usize) -> (r: usize)
    ensures
        r == if workers * 2 <= usize::MAX {
            workers * 2
        } else {
            usize::MAX as int
        },
{
    if workers <= usize::MAX / 2 {
        workers * 2
    } else {
        usize::MAX
    }
}

/// A pool as contracts see it.
pub struct PoolState<T> {
    /// The jobs, in the order in which they go out.
    pub jobs: Seq<T>,
    /// How many jobs have gone out.
    pub next: usize,
    /// How many jobs are out and not yet done.
    pub in_flight: usize,
    /// How many results were delivered.
    pub delivered: usize,
    /// How many results found nobody to take them.
    pub lost: usize,
    /// How many jobs may be out at a time.
    pub workers: usize,
    /// Whether the pool hands out no more jobs.
    pub stopped: bool,
}

impl<T> PoolState<T> {
    /// Whether the state can arise.
    pub open spec fn wf(self) -> bool {
        &&& self.workers >= 1
        &&& self.jobs.len() <= usize::MAX
        &&& self.next <= self.jobs.len()
        &&& self.in_flight <= self.workers
        &&& self.delivered + self.lost + self.in_flight == self.next
        &&& self.lost > 0 ==> self.stopped
    }

    /// The state of a new pool.
    pub open spec fn initial(jobs: Seq<T>, workers: usize) -> PoolState<T> {
        PoolState { jobs, next: 0, in_flight: 0, delivered: 0, lost: 0, workers, stopped: false }
    }

    /// The jobs that have gone out, in the order in which they did.
    pub open spec fn handed_out(self) -> Seq<T> {
        self.jobs.take(self.next as int)
    }

    /// Whether a job can go out now.
    pub open spec fn can_take(self) -> bool {
        !self.stopped && self.next < self.jobs.len() && self.in_flight < self.workers
    }

    /// Whether the work is over: nothing is out, and nothing more will go out.
    pub open spec fn finished(self) -> bool {
        self.in_flight == 0 && (self.stopped || self.next == self.jobs.len())
    }

    /// The state after a job went out.
    pub open spec fn after_take(self) -> PoolState<T> {
        if self.can_take() {
            PoolState {
                next: (self.next + 1) as usize,
                in_flight: (self.in_flight + 1) as usize,
                ..self
            }
        } else {
            self
        }
    }

    /// The state after a worker has done its job and tried to deliver the result.
    /// A result that nobody takes stops the pool.
    pub open spec fn after_done(self, was_delivered: bool) -> PoolState<T> {
        if self.in_flight == 0 {
            self
        } else if was_delivered {
            PoolState {
                in_flight: (self.in_flight - 1) as usize,
                delivered: (self.delivered + 1) as usize,
                ..self
            }
        } else {
            PoolState {
                in_flight: (self.in_flight - 1) as usize,
                lost: (self.lost + 1) as usize,
                stopped: true,
                ..self
            }
        }
    }

    /// The state after a request to stop.
    pub open spec fn after_stop(self) -> PoolState<T> {
        PoolState { stopped: true, ..self }
    }
}

/// The pool itself.
pub struct WorkPool<T> {
    jobs: Vec<T>,
    next: usize,
    delivered: usize,
    lost: usize,
    workers: usize,
    stopped: bool,
}

impl<T> View for WorkPool<T> {
    type V = PoolState<T>;

    closed spec fn view(&self) -> PoolState<T> {
        PoolState {
            jobs: self.jobs@,
            next: self.next,
            in_flight: (self.next - self.delivered - self.lost) as usize,
            delivered: self.delivered,
            lost: self.lost,
            workers: self.workers,
            stopped: self.stopped,
        }
    }
}

impl<T> WorkPool<T> {
    #[verifier::type_invariant]
    spec fn inv(self) -> bool {
        self@.wf()
    }
}

impl<T: Copy> WorkPool<T> {
    /// A pool over `jobs` with as many workers as `concurrent_limit` stands for.
    pub fn new(jobs: Vec<T>, concurrent_limit: usize) -> (r: WorkPool<T>)
        ensures
            r@ == PoolState::initial(
                jobs@,
                if concurrent_limit == 0 {
                    1
                } else {
                    concurrent_limit
                },
            ),
            r@.wf(),
    {
        let workers = worker_count(concurrent_limit);
        let total = jobs.len();
        assert(jobs@.len() == total);
        WorkPool { jobs, next: 0, delivered: 0, lost: 0, workers, stopped: false }
    }

    /// Hands out the next job, if one is left, the pool is not stopped and a worker
    /// is free. Jobs go out in their order, each once.
    pub fn take_job(&mut self) -> (r: Option<T>)
        ensures
            old(self)@.wf(),
            final(self)@.wf(),
            final(self)@ == old(self)@.after_take(),
            r == if old(self)@.can_take() {
                Some(old(self)@.jobs[old(self)@.next as int])
            } else {
                None
            },
    {
        proof {
            use_type_invariant(&*self);
        }
        if !self.stopped && self.next < self.jobs.len() && self.in_flight() < self.workers {
            let job = self.jobs[self.next];
            self.next = self.next + 1;
            Some(job)
        } else {
            None
        }
    }

    /// Takes note that a worker has done its job. `was_delivered` says whether the
    /// result found its taker; where it did not, the pool stops. Without a job
    /// out, nothing changes.
    pub fn job_done(&mut self, was_delivered: bool)
        ensures
            old(self)@.wf(),
            final(self)@.wf(),
            final(self)@ == old(self)@.after_done(was_delivered),
    {
        proof {
            use_type_invariant(&*self);
        }
        if self.in_flight() == 0 {
            return ;
        }
        if was_delivered {
            self.delivered = self.delivered + 1;
        } else {
            self.stopped = true;
            self.lost = self.lost + 1;
        }
    }

    /// Stops the pool: no further job goes out. Jobs that are out run to their end.
    pub fn stop(&mut self)
        ensures
            old(self)@.wf(),
            final(self)@.wf(),
            final(self)@ == old(self)@.after_stop(),
    {
        proof {
            use_type_invariant(&*self);
        }
        self.stopped = true;
    }

    /// Whether the work is over, so that the stream of results can be closed.
    pub fn is_finished(&self) -> (r: bool)
        ensures
            r == self@.finished(),
            self@.wf(),
    {
        proof {
            use_type_invariant(self);
        }
        self.in_flight() == 0 && (self.stopped || self.next == self.jobs.len())
    }

    /// How many jobs may be out at a time.
    pub fn workers(&self) -> (r: usize)
        ensures
            r == self@.workers,
    {
        self.workers
    }

    /// How many jobs are out.
    pub fn in_flight(&self) -> (r: usize)
        ensures
            r == self@.in_flight,
            self@.wf(),
    {
        proof {
            use_type_invariant(self);
        }
        self.next - self.delivered - self.lost
    }

    /// How many results were delivered.
    pub fn delivered(&self) -> (r: usize)
        ensures
            r == self@.delivered,
    {
        self.delivered
    }

    /// How many jobs there are.
    pub fn total(&self) -> (r: usize)
        ensures
            r == self@.jobs.len(),
    {
        self.jobs.len()
    }
}

/// Whatever happens to a pool leaves it in a state that can arise, with the same
/// jobs and workers; no step takes back a job that went out or a result that
/// was delivered, and never are more jobs out than there are workers.
pub proof fn lemma_pool_steps<T>(s: PoolState<T>, was_delivered: bool)
    requires
        s.wf(),
    ensures
        s.after_take().wf() && s.after_done(was_delivered).wf() && s.after_stop().wf(),
        s.after_take().jobs == s.jobs && s.after_done(was_delivered).jobs == s.jobs,
        s.after_take().handed_out() == if s.can_take() {
            s.handed_out().push(s.jobs[s.next as int])
        } else {
            s.handed_out()
        },
        s.after_done(was_delivered).handed_out() == s.handed_out(),
        s.after_take().delivered == s.delivered,
        s.after_done(was_delivered).delivered >= s.delivered,
        s.after_take().in_flight <= s.workers,
{
    if s.can_take() {
        assert(s.after_take().handed_out() =~= s.handed_out().push(s.jobs[s.next as int]));
    }
}

/// A pool that is over without having been stopped has handed out every job, each
/// once and in order, and has had one result delivered for each: none is
/// missing and none came twice.
pub proof fn lemma_finished_pool<T>(s: PoolState<T>)
    requires
        s.wf(),
        s.finished(),
        !s.stopped,
    ensures
        s.handed_out() == s.jobs,
        s.delivered == s.jobs.len(),
        s.lost == 0,
{
    assert(s.jobs.take(s.jobs.len() as int) =~= s.jobs);
}

/// What can happen to a pool.
pub enum PoolEvent {
    /// A worker asks for a job.
    Take,
    /// A worker has done its job; the flag says whether its result was delivered.
    Done(bool),
    /// The pool is told to stop.
    Stop,
}

impl<T> PoolState<T> {
    /// The state after `event`.
    pub open spec fn after_event(self, event: PoolEvent) -> PoolState<T> {
        match event {
            PoolEvent::Take => self.after_take(),
            PoolEvent::Done(was_delivered) => self.after_done(was_delivered),
            PoolEvent::Stop => self.after_stop(),
        }
    }

    /// The state after `events`, one after the other.
    pub open spec fn after_events(self, events: Seq<PoolEvent>) -> PoolState<T>
        decreases events.len(),
    {
        if events.len() == 0 {
            self
        } else {
            self.after_events(events.drop_last()).after_event(events.last())
        }
    }
}

/// Whatever happens to a new pool, in whatever order: never are more jobs out
/// than it has workers; what has gone out are the first jobs, in order; and
/// once the pool is over without having been stopped, every job has gone out
/// and one result was delivered for each, none missing and none twice.
pub proof fn lemma_pool_run<T>(jobs: Seq<T>, workers: usize, events: Seq<PoolEvent>)
    requires
        workers >= 1,
        jobs.len() <= usize::MAX,
    ensures
        ({
            let s = PoolState::initial(jobs, workers).after_events(events);
            &&& s.wf()
            &&& s.jobs == jobs
            &&& s.workers == workers
            &&& s.in_flight <= workers
            &&& s.handed_out() == jobs.take(s.next as int)
            &&& s.finished() && !s.stopped ==> s.handed_out() == jobs && s.delivered == jobs.len()
        }),
    decreases events.len(),
{
    let start = PoolState::initial(jobs, workers);
    if events.len() > 0 {
        lemma_pool_run(jobs, workers, events.drop_last());
        let before = start.after_events(events.drop_last());
        lemma_pool_steps(before, true);
        lemma_pool_steps(before, false);
    }
    let s = start.after_events(events);
    if s.finished() && !s.stopped {
        lemma_finished_pool(s);
    }
}

/// A pool that is not over can always move: a job can go out, or one is out and
/// will be done.
pub proof fn lemma_pool_progress<T>(s: PoolState<T>)
    requires
        s.wf(),
        !s.finished(),
    ensures
        s.can_take() || s.in_flight > 0,
{
}

/// With a single worker the results come in the order of the jobs: while one job
/// is out, no other goes out.
pub proof fn lemma_single_worker<T>(s: PoolState<T>)
    requires
        s.wf(),
        s.workers == 1,
    ensures
        s.in_flight <= 1,
        s.in_flight == 1 ==> !s.can_take(),
        s.delivered + s.lost + s.in_flight == s.next,
{
}

} // verus!

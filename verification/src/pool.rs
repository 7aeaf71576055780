//! The worker pool's dispatch protocol, as a verified state machine:
//! a FIFO queue of messages feeds a fixed set of workers; each
//! `NewJob` runs one job to completion, each `Terminate` retires one
//! worker.  Submitting jobs, then signalling one `Terminate` per
//! worker, then draining the queue completes every submitted job in
//! submission order and retires every worker.
//!
//! The threads themselves live outside the library; they consume the
//! same messages in the same order, so what is proved of the protocol
//! holds of the running pool.
use vstd::prelude::*;

verus! {

/// One entry of the pool's queue: a job, identified by the token its
/// submitter chose, or the signal that retires a worker.
#[derive(Debug, PartialEq, Eq, Structural, Clone, Copy)]
pub enum Message {
    NewJob(u64),
    Terminate,
}

/// The job tokens in a queue, in queue order.
pub open spec fn spec_job_ids(q: Seq<Message>) -> Seq<u64>
    decreases q.len(),
{
    if q.len() == 0 {
        Seq::empty()
    } else {
        match q[0] {
            Message::NewJob(id) => seq![id] + spec_job_ids(q.drop_first()),
            Message::Terminate => spec_job_ids(q.drop_first()),
        }
    }
}

/// How many termination signals a queue holds.
pub open spec fn spec_term_count(q: Seq<Message>) -> nat
    decreases q.len(),
{
    if q.len() == 0 {
        0
    } else {
        match q[0] {
            Message::NewJob(_) => spec_term_count(q.drop_first()),
            Message::Terminate => 1 + spec_term_count(q.drop_first()),
        }
    }
}

/// Whether every termination signal sits behind every job: nothing is
/// enqueued after shutdown has been signalled.
pub open spec fn spec_terms_last(q: Seq<Message>) -> bool {
    forall|i: int, j: int|
        0 <= i < j < q.len() && q[i] is Terminate ==> q[j] is Terminate
}

/// Whether a queue holds only jobs.
pub open spec fn spec_all_jobs(q: Seq<Message>) -> bool {
    forall|i: int| 0 <= i < q.len() ==> q[i] is NewJob
}

/// `n` termination signals.
pub open spec fn spec_terminates(n: nat) -> Seq<Message> {
    Seq::new(n, |i: int| Message::Terminate)
}

/// The fixed-size worker pool, reduced to what the dispatch protocol
/// decides: the pending queue, how many workers are still live, and
/// which jobs have run to completion, in order.
#[derive(Debug)]
pub struct WorkerPool {
    /// The pool's size: how many workers it was built with.
    pub size: usize,
    /// The messages not yet consumed, oldest first.
    pub queue: Vec<Message>,
    /// How many workers have not yet consumed a termination signal.
    pub live: usize,
    /// The tokens of the jobs that have run, in completion order.
    pub completed: Vec<u64>,
}

impl WorkerPool {
    /// Builds a pool of `size` workers, all live, with nothing queued.
    pub fn new(size: usize) -> (r: WorkerPool)
        requires
            size >= 1,
        ensures
            r.size == size,
            r.live == size,
            r.queue@.len() == 0,
            r.completed@.len() == 0,
    {
        WorkerPool { size, queue: Vec::new(), live: size, completed: Vec::new() }
    }

    /// Submits one job: it joins the back of the queue and nothing
    /// else changes.
    pub fn execute(&mut self, job: u64)
        ensures
            final(self).queue@ == old(self).queue@.push(Message::NewJob(job)),
            final(self).size == old(self).size,
            final(self).live == old(self).live,
            final(self).completed == old(self).completed,
    {
        self.queue.push(Message::NewJob(job));
    }

    /// Signals shutdown: exactly one termination signal per worker the
    /// pool was built with joins the back of the queue.
    pub fn shutdown(&mut self)
        ensures
            final(self).queue@ == old(self).queue@ + spec_terminates(old(self).size as nat),
            final(self).size == old(self).size,
            final(self).live == old(self).live,
            final(self).completed == old(self).completed,
    {
        let ghost q0 = self.queue@;
        let mut k: usize = 0;
        proof {
            assert(q0 + spec_terminates(0) =~= q0);
        }
        while k < self.size
            invariant
                k <= self.size,
                self.queue@ == q0 + spec_terminates(k as nat),
                self.size == old(self).size,
                self.live == old(self).live,
                self.completed == old(self).completed,
            decreases self.size - k,
        {
            self.queue.push(Message::Terminate);
            proof {
                assert(spec_terminates(k as nat + 1) =~= spec_terminates(k as nat).push(
                    Message::Terminate,
                ));
                assert(q0 + spec_terminates(k as nat).push(Message::Terminate) =~= (q0
                    + spec_terminates(k as nat)).push(Message::Terminate));
            }
            k = k + 1;
        }
    }

    /// Drains the queue: messages are consumed oldest first, each job
    /// runs to completion, each termination signal retires one worker.
    /// When shutdown was signalled after the last submission, every
    /// queued job completes, in submission order, and no worker stays
    /// live.
    pub fn drain(&mut self)
        requires
            spec_term_count(old(self).queue@) == old(self).live,
            spec_terms_last(old(self).queue@),
            old(self).live == 0 ==> old(self).queue@.len() == 0,
        ensures
            final(self).live == 0,
            final(self).queue@.len() == 0,
            final(self).completed@ == old(self).completed@ + spec_job_ids(old(self).queue@),
            final(self).size == old(self).size,
    {
        let ghost target = old(self).completed@ + spec_job_ids(old(self).queue@);
        while self.queue.len() > 0
            invariant
                spec_term_count(self.queue@) == self.live,
                spec_terms_last(self.queue@),
                self.live == 0 ==> self.queue@.len() == 0,
                self.completed@ + spec_job_ids(self.queue@) == target,
                self.size == old(self).size,
            decreases self.queue@.len(),
        {
            let ghost q0 = self.queue@;
            let msg = self.queue.remove(0);
            proof {
                assert(q0.remove(0) =~= q0.drop_first());
            }
            match msg {
                Message::NewJob(id) => {
                    let ghost c0 = self.completed@;
                    self.completed.push(id);
                    proof {
                        assert(spec_job_ids(q0) == seq![id] + spec_job_ids(q0.drop_first()));
                        assert(c0 + (seq![id] + spec_job_ids(q0.drop_first())) =~= c0.push(id)
                            + spec_job_ids(q0.drop_first()));
                        assert forall|i: int, j: int|
                            0 <= i < j < self.queue@.len() && self.queue@[i] is Terminate implies self.queue@[j] is Terminate by {
                            assert(q0[i + 1] is Terminate);
                        }
                    }
                },
                Message::Terminate => {
                    proof {
                        assert(spec_term_count(q0) == 1 + spec_term_count(q0.drop_first()));
                    }
                    self.live = self.live - 1;
                    proof {
                        assert(spec_job_ids(q0) == spec_job_ids(q0.drop_first()));
                        assert forall|i: int, j: int|
                            0 <= i < j < self.queue@.len() && self.queue@[i] is Terminate implies self.queue@[j] is Terminate by {
                            assert(q0[i + 1] is Terminate);
                        }
                        if self.live == 0 {
                            assert forall|k: int| 0 <= k < self.queue@.len() implies self.queue@[k] is Terminate by {
                                assert(q0[0] is Terminate);
                                assert(q0[k + 1] is Terminate);
                            }
                            if self.queue@.len() > 0 {
                                assert(spec_term_count(self.queue@) >= 1);
                            }
                        }
                    }
                },
            }
        }
        proof {
            assert(spec_job_ids(self.queue@) =~= Seq::<u64>::empty());
            assert(self.completed@ + Seq::<u64>::empty() =~= self.completed@);
        }
    }
}

/// Job listing is concatenative.
proof fn lemma_job_ids_concat(a: Seq<Message>, b: Seq<Message>)
    ensures
        spec_job_ids(a + b) == spec_job_ids(a) + spec_job_ids(b),
    decreases a.len(),
{
    if a.len() == 0 {
        assert(a + b =~= b);
        assert(spec_job_ids(a) =~= Seq::<u64>::empty());
        assert(Seq::<u64>::empty() + spec_job_ids(b) =~= spec_job_ids(b));
    } else {
        lemma_job_ids_concat(a.drop_first(), b);
        assert((a + b).drop_first() =~= a.drop_first() + b);
        assert((a + b)[0] == a[0]);
        match a[0] {
            Message::NewJob(id) => {
                assert(seq![id] + (spec_job_ids(a.drop_first()) + spec_job_ids(b)) =~= (seq![id]
                    + spec_job_ids(a.drop_first())) + spec_job_ids(b));
            },
            Message::Terminate => {},
        }
    }
}

/// Counting termination signals is concatenative.
proof fn lemma_term_count_concat(a: Seq<Message>, b: Seq<Message>)
    ensures
        spec_term_count(a + b) == spec_term_count(a) + spec_term_count(b),
    decreases a.len(),
{
    if a.len() == 0 {
        assert(a + b =~= b);
    } else {
        lemma_term_count_concat(a.drop_first(), b);
        assert((a + b).drop_first() =~= a.drop_first() + b);
        assert((a + b)[0] == a[0]);
    }
}

/// A queue of jobs alone holds no termination signal, and lists one
/// token per entry.
proof fn lemma_all_jobs_facts(q: Seq<Message>)
    requires
        spec_all_jobs(q),
    ensures
        spec_term_count(q) == 0,
        spec_job_ids(q).len() == q.len(),
    decreases q.len(),
{
    if q.len() > 0 {
        assert(q[0] is NewJob);
        assert(spec_all_jobs(q.drop_first())) by {
            assert forall|i: int| 0 <= i < q.drop_first().len() implies q.drop_first()[i] is NewJob by {
                assert(q[i + 1] is NewJob);
            }
        }
        lemma_all_jobs_facts(q.drop_first());
    }
}

/// `n` termination signals count as `n` and list no job.
proof fn lemma_terminates_facts(n: nat)
    ensures
        spec_term_count(spec_terminates(n)) == n,
        spec_job_ids(spec_terminates(n)).len() == 0,
    decreases n,
{
    if n > 0 {
        lemma_terminates_facts((n - 1) as nat);
        assert(spec_terminates(n).drop_first() =~= spec_terminates((n - 1) as nat));
        assert(spec_terminates(n)[0] is Terminate);
    }
}

/// Submitting any run of jobs and then signalling one termination per
/// worker leaves the queue ready to drain: the termination signals
/// match the live workers, none precedes a job, and draining will
/// complete exactly the submitted jobs — one recorded completion per
/// submission, in submission order — and retire every worker.
pub proof fn lemma_submit_then_shutdown_ready(jobs: Seq<Message>, n: nat)
    requires
        spec_all_jobs(jobs),
        n >= 1,
    ensures
        spec_term_count(jobs + spec_terminates(n)) == n,
        spec_terms_last(jobs + spec_terminates(n)),
        spec_job_ids(jobs + spec_terminates(n)) == spec_job_ids(jobs),
        spec_job_ids(jobs).len() == jobs.len(),
{
    let q = jobs + spec_terminates(n);
    lemma_all_jobs_facts(jobs);
    lemma_terminates_facts(n);
    lemma_term_count_concat(jobs, spec_terminates(n));
    lemma_job_ids_concat(jobs, spec_terminates(n));
    assert(spec_job_ids(spec_terminates(n)) =~= Seq::<u64>::empty());
    assert(spec_job_ids(jobs) + Seq::<u64>::empty() =~= spec_job_ids(jobs));
    assert forall|i: int, j: int|
        0 <= i < j < q.len() && q[i] is Terminate implies q[j] is Terminate by {
        if i < jobs.len() {
            assert(q[i] == jobs[i]);
            assert(jobs[i] is NewJob);
        } else {
            assert(q[j] == spec_terminates(n)[j - jobs.len()]);
        }
    }
}

} // verus!

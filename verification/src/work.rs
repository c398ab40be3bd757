//! Deferred work: a job is the ordered list of outbound tasks that one
//! inbound event gave rise to, and the queue hands jobs to the consumer that
//! carries them out.

use crate::client::{comment_path, comment_request, uri_parses};
use crate::client::{Client, ClientError, Request, RequestView};
use crate::config::Inner;
use futures::sync::mpsc::{UnboundedReceiver, UnboundedSender};
use vstd::prelude::*;

verus! {

/// One outbound action.
#[derive(Debug)]
pub enum Task {
    /// Post `body` as a comment on issue `issue` of repository `repo`.
    GithubComment { repo: String, issue: u64, body: String },
}

/// A task as the relay reasons about it.
pub enum TaskView {
    GithubComment { repo: Seq<char>, issue: u64, body: Seq<char> },
}

impl View for Task {
    type V = TaskView;

    open spec fn view(&self) -> TaskView {
        match *self {
            Task::GithubComment { repo, issue, body } => TaskView::GithubComment {
                repo: repo@,
                issue,
                body: body@,
            },
        }
    }
}

/// The tasks of `tasks`, each by its view.
pub open spec fn task_views(tasks: Seq<Task>) -> Seq<TaskView> {
    tasks.map_values(|t: Task| t@)
}

/// The work that one event gave rise to. Its view is the list of its tasks
/// in the order in which they were added, which is the order in which they
/// are carried out.
#[derive(Debug)]
pub struct Job {
    tasks: Vec<Task>,
}

impl View for Job {
    type V = Seq<TaskView>;

    closed spec fn view(&self) -> Seq<TaskView> {
        task_views(self.tasks@)
    }
}

impl Job {
    pub fn new() -> (job: Job)
        ensures
            job@ == Seq::<TaskView>::empty(),
    {
        let job = Job { tasks: Vec::new() };
        assert(job@ =~= Seq::<TaskView>::empty());
        job
    }

    /// Adds the task of posting a comment, after the tasks already there.
    pub fn comment(&mut self, repo: String, issue: u64, body: String)
        ensures
            final(self)@ == old(self)@.push(
                TaskView::GithubComment { repo: repo@, issue, body: body@ },
            ),
    {
        self.tasks.push(Task::GithubComment { repo, issue, body });
        assert(self@ =~= old(self)@.push(
            TaskView::GithubComment { repo: repo@, issue, body: body@ },
        ));
    }

    /// The tasks, first to last.
    pub fn tasks(&self) -> (tasks: &[Task])
        ensures
            task_views(tasks@) == self@,
    {
        self.tasks.as_slice()
    }

    /// Gives up the tasks, first to last.
    pub fn into_tasks(self) -> (tasks: Vec<Task>)
        ensures
            task_views(tasks@) == self@,
    {
        self.tasks
    }
}

/// `futures::sync::mpsc::UnboundedSender`, the sending half of a channel
/// without a bound. It is passed along unopened.
#[verifier::external_type_specification]
#[verifier::external_body]
#[verifier::reject_recursive_types(T)]
pub struct ExUnboundedSender<T>(UnboundedSender<T>);

/// `futures::sync::mpsc::UnboundedReceiver`, the receiving half. It is
/// passed along unopened.
#[verifier::external_type_specification]
#[verifier::external_body]
#[verifier::reject_recursive_types(T)]
pub struct ExUnboundedReceiver<T>(UnboundedReceiver<T>);

/// `Clone` for `futures::sync::mpsc::UnboundedSender`: another handle on the
/// same channel. Nothing is claimed of it.
pub assume_specification<T>[ <UnboundedSender<T> as Clone>::clone ](
    tx: &UnboundedSender<T>,
) -> UnboundedSender<T>;

/// Opens a channel with `futures::sync::mpsc::unbounded`. Nothing is claimed
/// of the two halves.
#[verifier::external_body]
fn channel() -> (halves: (UnboundedSender<Job>, UnboundedReceiver<Job>)) {
    futures::sync::mpsc::unbounded()
}

/// The sending half of the dispatch queue. Clones send into the same queue.
#[derive(Debug, Clone)]
pub struct Queue {
    tx: UnboundedSender<Job>,
}

impl Queue {
    /// A new queue without a bound, and the receiving half for its one
    /// consumer.
    pub fn new() -> (made: (Queue, UnboundedReceiver<Job>)) {
        let (tx, rx) = channel();
        (Queue::sending(tx), rx)
    }

    /// Hands `job` to the consumer without waiting for it, by
    /// `UnboundedSender::unbounded_send`. Taken on trust: when the call
    /// refuses the job, which it does once the receiving half is gone, the
    /// error gives back the very job that was handed in. Whether it refuses
    /// depends on the consumer, so nothing is claimed of that. The call
    /// gives up with a panic only where the count of waiting jobs would no
    /// longer fit the channel's state, which memory rules out.
    #[verifier::external_body]
    pub fn schedule(&self, job: Job) -> (res: Result<(), Job>)
        ensures
            res matches Err(back) ==> back == job,
    {
        self.tx.unbounded_send(job).map_err(|e| e.into_inner())
    }

    /// The sending half that this queue hands its jobs to.
    pub closed spec fn sender(&self) -> UnboundedSender<Job> {
        self.tx
    }

    /// The queue that sends into `tx`.
    pub fn sending(tx: UnboundedSender<Job>) -> (queue: Queue)
        ensures
            queue.sender() == tx,
    {
        Queue { tx }
    }
}

/// The request that carries out `task`.
pub open spec fn task_request(config: Inner, task: TaskView) -> RequestView {
    match task {
        TaskView::GithubComment { repo, issue, body } => comment_request(config, repo, issue, body),
    }
}

/// Whether the request that carries out `task` can be made.
pub open spec fn task_sendable(config: Inner, task: TaskView) -> bool {
    match task {
        TaskView::GithubComment { repo, issue, body } => uri_parses(
            config.api() + comment_path(repo, issue),
        ),
    }
}

/// How far a job has come: the requests for the first `issued` of `tasks`
/// have been handed out, and while `in_flight` the last of them has not been
/// answered. A run that is not in flight has ended.
pub struct RunView {
    pub tasks: Seq<TaskView>,
    pub issued: nat,
    pub in_flight: bool,
}

/// Turns to task `k`: its request is handed out, or the run ends because
/// there is no such task or its request cannot be made.
pub open spec fn turn_to(config: Inner, tasks: Seq<TaskView>, k: nat) -> (
    RunView,
    Option<RequestView>,
) {
    if k < tasks.len() && task_sendable(config, tasks[k as int]) {
        (
            RunView { tasks, issued: k + 1, in_flight: true },
            Some(task_request(config, tasks[k as int])),
        )
    } else {
        (RunView { tasks, issued: k, in_flight: false }, None)
    }
}

/// The start of a job: its first task is turned to.
pub open spec fn started(config: Inner, tasks: Seq<TaskView>) -> (RunView, Option<RequestView>) {
    turn_to(config, tasks, 0)
}

/// A run after the answer to the request in flight: the next task is turned
/// to if the answer was a success, and the run ends if it was not.
pub open spec fn answered(config: Inner, run: RunView, success: bool) -> (
    RunView,
    Option<RequestView>,
) {
    if run.in_flight && success {
        turn_to(config, run.tasks, run.issued)
    } else {
        (RunView { in_flight: false, ..run }, None)
    }
}

/// The request that was handed out, if one was, as a list.
pub open spec fn handed(request: Option<RequestView>) -> Seq<RequestView> {
    match request {
        Some(r) => seq![r],
        None => Seq::empty(),
    }
}

/// A job after it was started and the answers in `answers` came in, one
/// after the other: the run as it stands, and all the requests that were
/// handed out on the way.
pub open spec fn played(config: Inner, tasks: Seq<TaskView>, answers: Seq<bool>) -> (
    RunView,
    Seq<RequestView>,
)
    decreases answers.len(),
{
    if answers.len() == 0 {
        (started(config, tasks).0, handed(started(config, tasks).1))
    } else {
        let before = played(config, tasks, answers.drop_last());
        let after = answered(config, before.0, answers.last());
        (after.0, before.1 + handed(after.1))
    }
}

/// The tasks of a job are carried out in order and one at a time. However
/// the answers fall, the requests handed out are those of the first tasks,
/// in the order of the tasks; the request for a task is handed out only
/// when the requests before it have all been answered, and answered with
/// success.
pub proof fn lemma_tasks_in_order(config: Inner, tasks: Seq<TaskView>, answers: Seq<bool>)
    ensures
        played(config, tasks, answers).0.tasks == tasks,
        played(config, tasks, answers).0.issued == played(config, tasks, answers).1.len(),
        played(config, tasks, answers).1.len() <= tasks.len(),
        played(config, tasks, answers).1.len() <= answers.len() + 1,
        played(config, tasks, answers).0.in_flight ==> played(config, tasks, answers).1.len()
            == answers.len() + 1,
        forall|i: int|
            0 <= i < played(config, tasks, answers).1.len() ==> #[trigger] played(
                config,
                tasks,
                answers,
            ).1[i] == task_request(config, tasks[i]),
        forall|i: int|
            0 <= i < played(config, tasks, answers).1.len() - 1 ==> #[trigger] answers[i],
    decreases answers.len(),
{
    if answers.len() > 0 {
        let earlier = answers.drop_last();
        lemma_tasks_in_order(config, tasks, earlier);
        let before = played(config, tasks, earlier);
        let after = answered(config, before.0, answers.last());
        let requests = before.1 + handed(after.1);
        assert forall|i: int| 0 <= i < requests.len() implies #[trigger] requests[i]
            == task_request(config, tasks[i]) by {
            if i < before.1.len() {
                assert(requests[i] == before.1[i]);
            }
        }
        assert forall|i: int| 0 <= i < requests.len() - 1 implies #[trigger] answers[i] by {
            if i < before.1.len() - 1 {
                assert(answers[i] == earlier[i]);
            }
        }
    }
}

/// The runs of several jobs side by side, after the answer to the request
/// in flight of the job at `id`.
pub open spec fn answered_among(config: Inner, runs: Seq<RunView>, id: int, success: bool) -> Seq<
    RunView,
> {
    if 0 <= id < runs.len() {
        runs.update(id, answered(config, runs[id], success).0)
    } else {
        runs
    }
}

/// Jobs do not wait for each other. The answer to one job's request leaves
/// every other run as it was, so the answers to two jobs may come in either
/// order: each job is handed the same next request, and the runs end up the
/// same.
pub proof fn lemma_jobs_do_not_wait(
    config: Inner,
    runs: Seq<RunView>,
    a: int,
    b: int,
    success_a: bool,
    success_b: bool,
)
    requires
        0 <= a < runs.len(),
        0 <= b < runs.len(),
        a != b,
    ensures
        answered_among(config, runs, a, success_a)[b] == runs[b],
        answered(config, answered_among(config, runs, a, success_a)[b], success_b) == answered(
            config,
            runs[b],
            success_b,
        ),
        answered_among(config, answered_among(config, runs, a, success_a), b, success_b)
            == answered_among(config, answered_among(config, runs, b, success_b), a, success_a),
{
    assert(answered_among(config, answered_among(config, runs, a, success_a), b, success_b)
        =~= answered_among(config, answered_among(config, runs, b, success_b), a, success_a));
}

/// One job being carried out, one task at a time.
#[derive(Debug)]
pub struct Run {
    tasks: Vec<Task>,
    issued: usize,
    in_flight: bool,
}

impl View for Run {
    type V = RunView;

    closed spec fn view(&self) -> RunView {
        RunView {
            tasks: task_views(self.tasks@),
            issued: self.issued as nat,
            in_flight: self.in_flight,
        }
    }
}

impl Run {
    #[verifier::type_invariant]
    spec fn within(&self) -> bool {
        self.issued <= self.tasks.len()
    }

    /// Whether the job has ended.
    pub fn is_done(&self) -> (done: bool)
        ensures
            done == !self@.in_flight,
    {
        !self.in_flight
    }
}

/// A request by its view, if there is one.
pub open spec fn request_view(request: Option<Request>) -> Option<RequestView> {
    match request {
        Some(r) => Some(r@),
        None => None,
    }
}

/// The consumer of the queue: it carries out the jobs through its client.
#[derive(Debug, Clone)]
pub struct Jobs {
    client: Client,
}

impl Jobs {
    /// The configuration of the client that carries the jobs out.
    pub closed spec fn config(&self) -> Inner {
        self.client.config()
    }

    pub fn new(client: Client) -> (jobs: Jobs)
        ensures
            jobs.config() == client.config(),
    {
        Jobs { client }
    }

    /// Turns `run` to its next task.
    fn turn(&self, run: &mut Run) -> (request: Option<Request>)
        requires
            !old(run)@.in_flight,
        ensures
            final(run)@ == turn_to(self.config(), old(run)@.tasks, old(run)@.issued).0,
            request_view(request) == turn_to(self.config(), old(run)@.tasks, old(run)@.issued).1,
    {
        proof {
            use_type_invariant(&*run);
        }
        if run.issued >= run.tasks.len() {
            return None;
        }
        let made = match &run.tasks[run.issued] {
            Task::GithubComment { repo, issue, body } => self.client.github_comment(
                repo.clone(),
                *issue,
                body.clone(),
            ),
        };
        match made {
            Ok(request) => {
                run.issued = run.issued + 1;
                run.in_flight = true;
                Some(request)
            },
            Err(_) => None,
        }
    }

    /// Starts on a job that the queue delivered: hands out the request for
    /// its first task, and the run that keeps track of the others. It waits
    /// for no other job.
    pub fn on_recv(&self, job: Job) -> (begun: (Run, Option<Request>))
        ensures
            begun.0@ == started(self.config(), job@).0,
            request_view(begun.1) == started(self.config(), job@).1,
    {
        let mut run = Run { tasks: job.into_tasks(), issued: 0, in_flight: false };
        let first = self.turn(&mut run);
        (run, first)
    }

    /// Takes the answer to the request of `run` that is in flight, and hands
    /// out the request for the next task if the job goes on: it does after a
    /// success while tasks are left, and it ends with the first failure.
    pub fn on_answer(&self, run: &mut Run, outcome: Result<(), ClientError>) -> (request: Option<
        Request,
    >)
        ensures
            final(run)@ == answered(self.config(), old(run)@, outcome is Ok).0,
            request_view(request) == answered(self.config(), old(run)@, outcome is Ok).1,
    {
        proof {
            use_type_invariant(&*run);
        }
        if run.in_flight && outcome.is_ok() {
            run.in_flight = false;
            self.turn(run)
        } else {
            run.in_flight = false;
            None
        }
    }
}

} // verus!

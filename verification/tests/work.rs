use futures::Stream;
use fxabot::client::{Client, ClientError, Request};
use fxabot::config::{Config, Github, Inner, Server};
use fxabot::work::{Job, Jobs, Queue, Task};

fn jobs_with_api(api: Option<&str>) -> Jobs {
    let config = Config::new(Inner {
        github: Some(Github {
            username: "bot".to_string(),
            authorized: vec![],
            api: api.map(|s| s.to_string()),
            token: None,
            webhook_secret: None,
        }),
        server: Server { host: "127.0.0.1".to_string(), port: None },
    });
    Jobs::new(Client::new(config))
}

fn job(bodies: &[&str]) -> Job {
    let mut job = Job::new();
    for (i, body) in bodies.iter().enumerate() {
        job.comment("owner/repo".to_string(), i as u64 + 1, body.to_string());
    }
    job
}

fn uri(request: &Option<Request>) -> Option<&str> {
    request.as_ref().map(|r| r.uri.as_str())
}

fn comment_of(task: &Task) -> (&str, u64, &str) {
    match task {
        Task::GithubComment { repo, issue, body } => (repo.as_str(), *issue, body.as_str()),
    }
}

#[test]
fn new_job_is_empty() {
    assert_eq!(Job::new().tasks().len(), 0);
    assert!(Job::new().into_tasks().is_empty());
}

#[test]
fn tasks_keep_the_order_in_which_they_were_added() {
    let mut job = Job::new();
    job.comment("a/b".to_string(), 1, "first".to_string());
    job.comment("c/d".to_string(), 2, "second".to_string());
    job.comment("a/b".to_string(), 3, "third".to_string());
    let tasks = job.tasks();
    assert_eq!(tasks.len(), 3);
    assert_eq!(comment_of(&tasks[0]), ("a/b", 1, "first"));
    assert_eq!(comment_of(&tasks[1]), ("c/d", 2, "second"));
    assert_eq!(comment_of(&tasks[2]), ("a/b", 3, "third"));
    let tasks = job.into_tasks();
    assert_eq!(comment_of(&tasks[2]), ("a/b", 3, "third"));
}

#[test]
fn scheduled_jobs_arrive_in_the_order_of_submission() {
    let (queue, rx) = Queue::new();
    let other = queue.clone();
    assert!(queue.schedule(job(&["one"])).is_ok());
    assert!(other.schedule(job(&["two", "three"])).is_ok());
    drop(queue);
    drop(other);
    let got: Vec<Job> = rx.wait().map(|j| j.unwrap()).collect();
    assert_eq!(got.len(), 2);
    assert_eq!(comment_of(&got[0].tasks()[0]).2, "one");
    assert_eq!(comment_of(&got[1].tasks()[1]).2, "three");
}

#[test]
fn schedule_gives_the_job_back_when_the_consumer_is_gone() {
    let (queue, rx) = Queue::new();
    drop(rx);
    let back = queue.schedule(job(&["lost"])).unwrap_err();
    assert_eq!(back.tasks().len(), 1);
    assert_eq!(comment_of(&back.tasks()[0]), ("owner/repo", 1, "lost"));
}

#[test]
fn second_task_waits_for_the_first_to_succeed() {
    let jobs = jobs_with_api(None);
    let (mut run, first) = jobs.on_recv(job(&["T1", "T2"]));
    assert_eq!(uri(&first), Some("https://api.github.com/repos/owner/repo/issues/1/comments"));
    assert_eq!(first.unwrap().body.as_deref(), Some("{\"body\":\"T1\"}"));
    assert!(!run.is_done());
    let second = jobs.on_answer(&mut run, Ok(()));
    assert_eq!(uri(&second), Some("https://api.github.com/repos/owner/repo/issues/2/comments"));
    assert_eq!(second.unwrap().body.as_deref(), Some("{\"body\":\"T2\"}"));
    assert!(!run.is_done());
    assert!(jobs.on_answer(&mut run, Ok(())).is_none());
    assert!(run.is_done());
    assert!(jobs.on_answer(&mut run, Ok(())).is_none());
    assert!(run.is_done());
}

#[test]
fn failed_task_ends_the_job() {
    let jobs = jobs_with_api(None);
    let (mut run, first) = jobs.on_recv(job(&["T1", "T2", "T3"]));
    assert!(first.is_some());
    assert!(jobs.on_answer(&mut run, Err(ClientError::Api)).is_none());
    assert!(run.is_done());
    assert!(jobs.on_answer(&mut run, Ok(())).is_none());
    assert!(run.is_done());
}

#[test]
fn failure_in_the_middle_drops_the_rest() {
    let jobs = jobs_with_api(None);
    let (mut run, _) = jobs.on_recv(job(&["T1", "T2", "T3"]));
    assert!(jobs.on_answer(&mut run, Ok(())).is_some());
    assert!(jobs.on_answer(&mut run, Err(ClientError::Api)).is_none());
    assert!(run.is_done());
}

#[test]
fn empty_job_is_done_at_once() {
    let jobs = jobs_with_api(None);
    let (run, first) = jobs.on_recv(Job::new());
    assert!(first.is_none());
    assert!(run.is_done());
}

#[test]
fn task_whose_request_cannot_be_made_ends_the_job() {
    let jobs = jobs_with_api(Some("http://"));
    let (run, first) = jobs.on_recv(job(&["T1", "T2"]));
    assert!(first.is_none());
    assert!(run.is_done());
}

#[test]
fn two_jobs_may_finish_in_either_order() {
    let jobs = jobs_with_api(None);

    let (mut j1, r1) = jobs.on_recv(job(&["J1"]));
    let (mut j2, r2) = jobs.on_recv(job(&["J2"]));
    assert!(r1.is_some() && r2.is_some());
    assert!(jobs.on_answer(&mut j2, Ok(())).is_none());
    assert!(j2.is_done() && !j1.is_done());
    assert!(jobs.on_answer(&mut j1, Ok(())).is_none());
    assert!(j1.is_done());

    let (mut j1, _) = jobs.on_recv(job(&["J1"]));
    let (mut j2, _) = jobs.on_recv(job(&["J2"]));
    assert!(jobs.on_answer(&mut j1, Ok(())).is_none());
    assert!(j1.is_done() && !j2.is_done());
    assert!(jobs.on_answer(&mut j2, Ok(())).is_none());
    assert!(j2.is_done());
}

#[test]
fn failure_of_one_job_leaves_the_other_running() {
    let jobs = jobs_with_api(None);
    let (mut j1, _) = jobs.on_recv(job(&["a", "b"]));
    let (mut j2, _) = jobs.on_recv(job(&["c", "d"]));
    assert!(jobs.on_answer(&mut j1, Err(ClientError::Api)).is_none());
    assert!(j1.is_done());
    let next = jobs.on_answer(&mut j2, Ok(()));
    assert_eq!(next.unwrap().body.as_deref(), Some("{\"body\":\"d\"}"));
    assert!(!j2.is_done());
}

#[test]
fn queue_sends_into_the_half_it_was_given() {
    let (tx, rx) = futures::sync::mpsc::unbounded();
    let queue = Queue::sending(tx);
    assert!(queue.schedule(job(&["here"])).is_ok());
    drop(queue);
    let got: Vec<Job> = rx.wait().map(|j| j.unwrap()).collect();
    assert_eq!(got.len(), 1);
    assert_eq!(comment_of(&got[0].tasks()[0]).2, "here");
}

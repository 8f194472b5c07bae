use lvm_multi_api::providers::automatic1111::api::job::{Job, JobStatus};

const ALL: [JobStatus; 5] = [
    JobStatus::Pending,
    JobStatus::Running,
    JobStatus::Done,
    JobStatus::Failed,
    JobStatus::Interrupted,
];

#[test]
fn terminal_statuses() {
    assert!(!JobStatus::Pending.is_terminal());
    assert!(!JobStatus::Running.is_terminal());
    assert!(JobStatus::Done.is_terminal());
    assert!(JobStatus::Failed.is_terminal());
    assert!(JobStatus::Interrupted.is_terminal());
}

#[test]
fn wire_names_are_lowercase() {
    assert_eq!(JobStatus::Pending.as_wire(), "pending");
    assert_eq!(JobStatus::Running.as_wire(), "running");
    assert_eq!(JobStatus::Done.as_wire(), "done");
    assert_eq!(JobStatus::Failed.as_wire(), "failed");
    assert_eq!(JobStatus::Interrupted.as_wire(), "interrupted");
}

#[test]
fn wire_names_are_read_back() {
    for status in ALL {
        assert_eq!(JobStatus::from_wire(status.as_wire()), Some(status));
    }
}

#[test]
fn other_names_are_no_status() {
    assert_eq!(JobStatus::from_wire(""), None);
    assert_eq!(JobStatus::from_wire("Done"), None);
    assert_eq!(JobStatus::from_wire("DONE"), None);
    assert_eq!(JobStatus::from_wire("done "), None);
    assert_eq!(JobStatus::from_wire("finished"), None);
    assert_eq!(JobStatus::from_wire("pendin"), None);
    assert_eq!(JobStatus::from_wire("d\u{f6}ne"), None);
}

#[test]
fn a_new_job_is_pending() {
    let job = Job::new("task-1".to_string(), 17);
    assert_eq!(job.id(), "task-1");
    assert_eq!(job.status(), JobStatus::Pending);
    assert_eq!(job.created_at(), 17);
}

#[test]
fn transient_statuses_follow_the_reports() {
    let mut job = Job::new("task-1".to_string(), 0);
    job.observe(JobStatus::Running);
    assert_eq!(job.status(), JobStatus::Running);
    job.observe(JobStatus::Pending);
    assert_eq!(job.status(), JobStatus::Pending);
    job.observe(JobStatus::Done);
    assert_eq!(job.status(), JobStatus::Done);
}

#[test]
fn a_terminal_status_is_never_left() {
    for terminal in [JobStatus::Done, JobStatus::Failed, JobStatus::Interrupted] {
        for later in ALL {
            let mut job = Job::new("task-1".to_string(), 3);
            job.observe(JobStatus::Running);
            job.observe(terminal);
            job.observe(later);
            assert_eq!(job.status(), terminal);
            assert_eq!(job.id(), "task-1");
            assert_eq!(job.created_at(), 3);
        }
    }
}

#[test]
fn a_job_clone_is_equal() {
    let mut job = Job::new("task-9".to_string(), 4);
    job.observe(JobStatus::Running);
    assert_eq!(job.clone(), job);
}

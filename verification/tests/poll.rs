use lvm_multi_api::errors::{DecodeCause, Fault, LvmError, Stage};
use lvm_multi_api::images::{Base64Fault, LvmImage, LvmImageMetadata};
use lvm_multi_api::providers::automatic1111::api::job::{Job, JobStatus};
use lvm_multi_api::providers::automatic1111::api::poll::{
    wrap_payloads, JobOutcome, PollAction, PollEvent, PollPhase, Poller, POLL_INTERVAL,
    POLL_TIMEOUT,
};

fn poller() -> Poller {
    Poller::new(Job::new("task-1".to_string(), 0), Some("{\"steps\":10}".to_string()))
}

fn querying() -> Poller {
    let mut p = poller();
    assert_eq!(p.step(PollEvent::Tick), PollAction::QueryStatus);
    p
}

fn fetching() -> Poller {
    let mut p = querying();
    assert_eq!(
        p.step(PollEvent::Status { reported: JobStatus::Done }),
        PollAction::FetchResults
    );
    p
}

fn timeout() -> PollAction {
    PollAction::Complete {
        outcome: JobOutcome::Failed {
            error: LvmError::Timeout { job_id: "task-1".to_string() },
        },
    }
}

fn image(data: &[u8]) -> LvmImage {
    LvmImage {
        data: data.to_vec(),
        metadata: Some(LvmImageMetadata { generation_params: Some("{\"steps\":10}".to_string()) }),
    }
}

#[test]
fn polling_constants() {
    assert_eq!(POLL_INTERVAL, 1);
    assert_eq!(POLL_TIMEOUT, 300);
}

#[test]
fn a_new_poller_waits() {
    let p = poller();
    assert_eq!(p.phase(), PollPhase::Waiting);
    assert_eq!(p.elapsed(), 0);
    assert_eq!(p.job().id(), "task-1");
    assert_eq!(p.job().status(), JobStatus::Pending);
}

#[test]
fn a_tick_starts_a_query() {
    let p = querying();
    assert_eq!(p.phase(), PollPhase::Querying);
    assert_eq!(p.elapsed(), 1);
}

#[test]
fn a_transient_status_leads_back_to_waiting() {
    let mut p = querying();
    assert_eq!(p.step(PollEvent::Status { reported: JobStatus::Running }), PollAction::Wait);
    assert_eq!(p.phase(), PollPhase::Waiting);
    assert_eq!(p.job().status(), JobStatus::Running);
    assert_eq!(p.step(PollEvent::Tick), PollAction::QueryStatus);
    assert_eq!(p.step(PollEvent::Status { reported: JobStatus::Pending }), PollAction::Wait);
    assert_eq!(p.job().status(), JobStatus::Pending);
    assert_eq!(p.elapsed(), 2);
}

#[test]
fn done_calls_for_the_results() {
    let p = fetching();
    assert_eq!(p.phase(), PollPhase::Fetching);
    assert_eq!(p.job().status(), JobStatus::Done);
}

#[test]
fn results_complete_the_job_with_its_images() {
    let mut p = fetching();
    let action = p.step(PollEvent::Results { payloads: vec![b"one".to_vec(), b"two".to_vec()] });
    assert_eq!(
        action,
        PollAction::Complete {
            outcome: JobOutcome::Succeeded { images: vec![image(b"one"), image(b"two")] }
        }
    );
    assert_eq!(p.phase(), PollPhase::Finished);
}

#[test]
fn results_without_an_image_fail_the_job() {
    let mut p = fetching();
    let action = p.step(PollEvent::Results { payloads: Vec::new() });
    assert_eq!(
        action,
        PollAction::Complete {
            outcome: JobOutcome::Failed {
                error: LvmError::Decode {
                    stage: Stage::Fetch,
                    job: Some("task-1".to_string()),
                    cause: DecodeCause::NoImages,
                }
            }
        }
    );
    assert_eq!(p.phase(), PollPhase::Finished);
}

#[test]
fn failed_and_interrupted_end_the_polling() {
    for status in [JobStatus::Failed, JobStatus::Interrupted] {
        let mut p = querying();
        let action = p.step(PollEvent::Status { reported: status });
        assert_eq!(
            action,
            PollAction::Complete {
                outcome: JobOutcome::Failed {
                    error: LvmError::JobFailure { job_id: "task-1".to_string(), status }
                }
            }
        );
        assert_eq!(p.phase(), PollPhase::Finished);
        assert_eq!(p.job().status(), status);
    }
}

#[test]
fn a_failed_status_query_is_tagged_with_stage_and_job() {
    let mut p = querying();
    let action =
        p.step(PollEvent::StatusFailed { fault: Fault::Transport { detail: "reset".to_string() } });
    assert_eq!(
        action,
        PollAction::Complete {
            outcome: JobOutcome::Failed {
                error: LvmError::Transport {
                    stage: Stage::Poll,
                    job: Some("task-1".to_string()),
                    detail: "reset".to_string(),
                }
            }
        }
    );
    assert_eq!(p.phase(), PollPhase::Finished);
}

#[test]
fn a_failed_fetch_is_tagged_with_stage_and_job() {
    let mut p = fetching();
    let fault = Fault::Decode { cause: DecodeCause::Malformed { detail: "not json".to_string() } };
    let action = p.step(PollEvent::ResultsFailed { fault });
    assert_eq!(
        action,
        PollAction::Complete {
            outcome: JobOutcome::Failed {
                error: LvmError::Decode {
                    stage: Stage::Fetch,
                    job: Some("task-1".to_string()),
                    cause: DecodeCause::Malformed { detail: "not json".to_string() },
                }
            }
        }
    );
}

#[test]
fn the_deadline_times_out_a_waiting_job() {
    let mut p = poller();
    assert_eq!(p.step(PollEvent::Deadline), timeout());
    assert_eq!(p.phase(), PollPhase::Finished);
}

#[test]
fn the_deadline_times_out_a_job_that_is_being_queried() {
    let mut p = querying();
    assert_eq!(p.step(PollEvent::Deadline), timeout());
    assert_eq!(p.phase(), PollPhase::Finished);
}

#[test]
fn the_deadline_does_not_stop_a_fetch() {
    let mut p = fetching();
    assert_eq!(p.step(PollEvent::Deadline), PollAction::Wait);
    assert_eq!(p.phase(), PollPhase::Fetching);
    let action = p.step(PollEvent::Results { payloads: vec![b"one".to_vec()] });
    assert_eq!(
        action,
        PollAction::Complete { outcome: JobOutcome::Succeeded { images: vec![image(b"one")] } }
    );
}

#[test]
fn a_job_that_never_finishes_times_out_after_300_polls() {
    let mut p = poller();
    let mut queries = 0;
    let last = loop {
        match p.step(PollEvent::Tick) {
            PollAction::QueryStatus => {
                queries += 1;
                let status = if queries % 2 == 0 { JobStatus::Pending } else { JobStatus::Running };
                assert_eq!(p.step(PollEvent::Status { reported: status }), PollAction::Wait);
            }
            other => break other,
        }
        assert!(queries <= 300);
    };
    assert_eq!(queries, 300);
    assert_eq!(last, timeout());
    assert_eq!(p.elapsed(), 300);
    assert_eq!(p.phase(), PollPhase::Finished);
    assert_eq!(p.job().status(), JobStatus::Pending);
}

#[test]
fn a_job_that_is_done_at_the_last_poll_is_not_timed_out() {
    let mut p = poller();
    for _ in 0..299 {
        assert_eq!(p.step(PollEvent::Tick), PollAction::QueryStatus);
        assert_eq!(p.step(PollEvent::Status { reported: JobStatus::Running }), PollAction::Wait);
    }
    assert_eq!(p.step(PollEvent::Tick), PollAction::QueryStatus);
    assert_eq!(
        p.step(PollEvent::Status { reported: JobStatus::Done }),
        PollAction::FetchResults
    );
}

#[test]
fn a_finished_poller_stays_finished() {
    let mut p = querying();
    p.step(PollEvent::Status { reported: JobStatus::Failed });
    let events = [
        PollEvent::Tick,
        PollEvent::Deadline,
        PollEvent::Status { reported: JobStatus::Done },
        PollEvent::Status { reported: JobStatus::Interrupted },
        PollEvent::Status { reported: JobStatus::Running },
        PollEvent::StatusFailed { fault: Fault::Transport { detail: "x".to_string() } },
        PollEvent::Results { payloads: vec![b"late".to_vec()] },
        PollEvent::ResultsFailed { fault: Fault::Transport { detail: "x".to_string() } },
    ];
    for event in events {
        assert_eq!(p.step(event), PollAction::Wait);
        assert_eq!(p.phase(), PollPhase::Finished);
        assert_eq!(p.job().status(), JobStatus::Failed);
        assert_eq!(p.job().id(), "task-1");
    }
}

#[test]
fn events_that_a_phase_does_not_expect_change_nothing() {
    let mut p = poller();
    assert_eq!(p.step(PollEvent::Status { reported: JobStatus::Done }), PollAction::Wait);
    assert_eq!(p.step(PollEvent::Results { payloads: vec![b"x".to_vec()] }), PollAction::Wait);
    assert_eq!(
        p.step(PollEvent::StatusFailed { fault: Fault::Transport { detail: "x".to_string() } }),
        PollAction::Wait
    );
    assert_eq!(p.phase(), PollPhase::Waiting);
    assert_eq!(p.job().status(), JobStatus::Pending);
    assert_eq!(p.elapsed(), 0);

    let mut q = querying();
    assert_eq!(q.step(PollEvent::Tick), PollAction::Wait);
    assert_eq!(q.step(PollEvent::Results { payloads: vec![b"x".to_vec()] }), PollAction::Wait);
    assert_eq!(q.phase(), PollPhase::Querying);
    assert_eq!(q.elapsed(), 1);

    let mut f = fetching();
    assert_eq!(f.step(PollEvent::Tick), PollAction::Wait);
    assert_eq!(f.step(PollEvent::Status { reported: JobStatus::Failed }), PollAction::Wait);
    assert_eq!(f.phase(), PollPhase::Fetching);
    assert_eq!(f.job().status(), JobStatus::Done);
}

#[test]
fn images_carry_the_generation_parameters() {
    let params = Some("{\"prompt\":\"cat\"}".to_string());
    let images = wrap_payloads(vec![vec![1], vec![2, 3]], &params);
    assert_eq!(
        images,
        vec![
            LvmImage {
                data: vec![1],
                metadata: Some(LvmImageMetadata { generation_params: params.clone() })
            },
            LvmImage {
                data: vec![2, 3],
                metadata: Some(LvmImageMetadata { generation_params: params.clone() })
            },
        ]
    );
    let bare = wrap_payloads(vec![vec![9]], &None);
    assert_eq!(
        bare,
        vec![LvmImage {
            data: vec![9],
            metadata: Some(LvmImageMetadata { generation_params: None })
        }]
    );
    assert_eq!(wrap_payloads(Vec::new(), &params), Vec::new());
}

#[test]
fn a_status_answer_becomes_an_event() {
    assert_eq!(
        PollEvent::status_answer(Ok("running".to_string())),
        PollEvent::Status { reported: JobStatus::Running }
    );
    assert_eq!(
        PollEvent::status_answer(Ok("done".to_string())),
        PollEvent::Status { reported: JobStatus::Done }
    );
    assert_eq!(
        PollEvent::status_answer(Ok("paused".to_string())),
        PollEvent::StatusFailed {
            fault: Fault::Decode { cause: DecodeCause::UnknownStatus { name: "paused".to_string() } }
        }
    );
    assert_eq!(
        PollEvent::status_answer(Err(Fault::Transport { detail: "reset".to_string() })),
        PollEvent::StatusFailed { fault: Fault::Transport { detail: "reset".to_string() } }
    );
}

#[test]
fn a_results_answer_becomes_an_event() {
    assert_eq!(
        PollEvent::results_answer(Ok(vec![
            "data:image/png;base64,aGVsbG8=".to_string(),
            "d29ybGQ=".to_string()
        ])),
        PollEvent::Results { payloads: vec![b"hello".to_vec(), b"world".to_vec()] }
    );
    assert_eq!(PollEvent::results_answer(Ok(Vec::new())), PollEvent::Results { payloads: Vec::new() });
    assert_eq!(
        PollEvent::results_answer(Ok(vec!["aGVsbG8=".to_string(), "?".to_string()])),
        PollEvent::ResultsFailed {
            fault: Fault::Decode {
                cause: DecodeCause::Image {
                    index: 1,
                    fault: Base64Fault::InvalidByte { offset: 0, byte: b'?' }
                }
            }
        }
    );
    assert_eq!(
        PollEvent::results_answer(Err(Fault::Transport { detail: "reset".to_string() })),
        PollEvent::ResultsFailed { fault: Fault::Transport { detail: "reset".to_string() } }
    );
}

#[test]
fn decoded_results_become_an_event() {
    assert_eq!(
        PollEvent::results(Ok(vec![vec![1, 2]])),
        PollEvent::Results { payloads: vec![vec![1, 2]] }
    );
    assert_eq!(
        PollEvent::results(Err(Fault::Decode { cause: DecodeCause::NoImages })),
        PollEvent::ResultsFailed { fault: Fault::Decode { cause: DecodeCause::NoImages } }
    );
}

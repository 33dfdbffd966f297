use sqip_worker::error::SqipError;
use sqip_worker::message::{SqipCreateMessage, SqipDoneMessage};
use sqip_worker::worker::{delivery_event, job_event, Phase, Worker, WorkerAction, WorkerEvent, PREFETCH_COUNT};

fn valid_job() -> SqipCreateMessage {
    SqipCreateMessage {
        film_id: "42".to_string(),
        poster_path: None,
        backdrop_path: Some("/b.jpg".to_string()),
    }
}

#[test]
fn prefetch_is_one() {
    assert_eq!(PREFETCH_COUNT, 1);
}

#[test]
fn successful_job_is_published_then_acked() {
    let mut w = Worker::new();
    assert_eq!(w.phase(), Phase::Idle);
    let j = valid_job();
    assert_eq!(w.step(delivery_event(5, Some(&j))), WorkerAction::Process { tag: 5 });
    assert_eq!(w.unacknowledged(), Some(5));
    let done: Result<SqipDoneMessage, SqipError> = Ok(SqipDoneMessage::new("42".to_string()));
    assert_eq!(w.step(job_event(&done)), WorkerAction::Publish);
    assert_eq!(w.step(WorkerEvent::Published { ok: true }), WorkerAction::Ack { tag: 5 });
    assert_eq!(w.step(WorkerEvent::Acked { ok: true }), WorkerAction::Wait);
    assert_eq!(w.unacknowledged(), None);
    assert!(!w.is_stopped());
}

#[test]
fn unreachable_image_releases_and_continues() {
    let mut w = Worker::new();
    let j = valid_job();
    assert_eq!(w.step(delivery_event(1, Some(&j))), WorkerAction::Process { tag: 1 });
    let failed: Result<SqipDoneMessage, SqipError> = Err(SqipError::Retrieval);
    assert_eq!(w.step(job_event(&failed)), WorkerAction::Release { tag: 1 });
    assert_eq!(w.phase(), Phase::Idle);
    assert_eq!(w.step(delivery_event(2, Some(&j))), WorkerAction::Process { tag: 2 });
}

#[test]
fn generation_failure_releases() {
    let mut w = Worker::new();
    w.step(WorkerEvent::Delivered { tag: 3, well_formed: true });
    assert_eq!(
        w.step(WorkerEvent::JobFailed { error: SqipError::Generation }),
        WorkerAction::Release { tag: 3 }
    );
    assert!(!w.is_stopped());
}

#[test]
fn malformed_body_halts_the_loop() {
    let mut w = Worker::new();
    assert_eq!(
        w.step(delivery_event(1, None)),
        WorkerAction::Halt { error: SqipError::MalformedJob }
    );
    assert!(w.is_stopped());
    assert_eq!(
        w.step(WorkerEvent::Delivered { tag: 2, well_formed: true }),
        WorkerAction::Halt { error: SqipError::MalformedJob }
    );
}

#[test]
fn job_with_empty_id_is_malformed() {
    let j = SqipCreateMessage { film_id: String::new(), poster_path: None, backdrop_path: None };
    assert_eq!(delivery_event(4, Some(&j)), WorkerEvent::Delivered { tag: 4, well_formed: false });
}

#[test]
fn second_delivery_while_busy_is_fatal() {
    let mut w = Worker::new();
    w.step(WorkerEvent::Delivered { tag: 1, well_formed: true });
    assert_eq!(
        w.step(WorkerEvent::Delivered { tag: 2, well_formed: true }),
        WorkerAction::Halt { error: SqipError::TransportFatal }
    );
    assert_eq!(w.unacknowledged(), None);
}

#[test]
fn consumer_end_is_fatal() {
    let mut w = Worker::new();
    assert_eq!(
        w.step(WorkerEvent::ConsumerEnded),
        WorkerAction::Halt { error: SqipError::TransportFatal }
    );
    assert_eq!(w.phase(), Phase::Stopped { error: SqipError::TransportFatal });
}

#[test]
fn publish_or_ack_failure_is_fatal() {
    let mut w = Worker::new();
    w.step(WorkerEvent::Delivered { tag: 1, well_formed: true });
    w.step(WorkerEvent::JobDone);
    assert_eq!(
        w.step(WorkerEvent::Published { ok: false }),
        WorkerAction::Halt { error: SqipError::TransportFatal }
    );
    let mut w = Worker::new();
    w.step(WorkerEvent::Delivered { tag: 1, well_formed: true });
    w.step(WorkerEvent::JobDone);
    w.step(WorkerEvent::Published { ok: true });
    assert_eq!(
        w.step(WorkerEvent::Acked { ok: false }),
        WorkerAction::Halt { error: SqipError::TransportFatal }
    );
}

#[test]
fn redelivery_after_failure_matches_first_attempt() {
    let mut w = Worker::new();
    w.step(WorkerEvent::Delivered { tag: 1, well_formed: true });
    w.step(WorkerEvent::JobFailed { error: SqipError::Retrieval });
    assert_eq!(w.step(WorkerEvent::Delivered { tag: 2, well_formed: true }), WorkerAction::Process { tag: 2 });
    assert_eq!(w.step(WorkerEvent::JobDone), WorkerAction::Publish);
    assert_eq!(w.step(WorkerEvent::Published { ok: true }), WorkerAction::Ack { tag: 2 });
    assert_eq!(w.step(WorkerEvent::Acked { ok: true }), WorkerAction::Wait);
}

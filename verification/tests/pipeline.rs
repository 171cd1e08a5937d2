use ingestion_api::dedupe::{plan_probe, resolve_probe};
use ingestion_api::event::UsageEvent;
use ingestion_api::ingress::{ingest, AppState, Limits, Response};
use ingestion_api::worker::{DrainEnd, WorkerAction, WorkerBatch, WorkerEvent};

fn posted(id: u128, key: &str) -> UsageEvent {
    UsageEvent::with_identity(id, 0, "c1".to_string(), "api".to_string(), 1, key.to_string())
}

#[test]
fn every_sink_event_was_enqueued_once() {
    let limits = Limits { queue_capacity: 4, ..Limits::standard() };
    let (state, mut rx) = AppState::start(limits).unwrap();

    let posts = vec![
        posted(1, "a"),
        posted(2, "b"),
        posted(3, "a"),
        posted(4, "c"),
        posted(5, "d"),
        posted(6, "e"),
        posted(7, "f"),
    ];
    let mut accepted = Vec::new();
    for post in posts {
        let id = post.event_id;
        if ingest(&state, post).response == Response::Accepted {
            accepted.push(id);
        }
    }
    assert_eq!(accepted, vec![1, 2, 4, 5]);

    let mut batch = WorkerBatch::new();
    assert_eq!(batch.step(WorkerEvent::Cancelled), WorkerAction::DrainAndStop);
    assert_eq!(batch.drain(&mut rx), DrainEnd::Empty);
    assert!(rx.is_empty());

    let buffer = batch.take();
    let plan = plan_probe(&buffer).unwrap();
    let reply = Some(vec![None, Some("1".to_string()), None, None]);
    let sink = resolve_probe(&plan.events, &reply).unique;
    let sunk: Vec<u128> = sink.iter().map(|e| e.event_id).collect();
    assert_eq!(sunk, vec![1, 4, 5]);
    for id in &sunk {
        assert_eq!(accepted.iter().filter(|a| *a == id).count(), 1);
        assert_eq!(sunk.iter().filter(|s| *s == id).count(), 1);
    }
}

#[test]
fn a_worker_that_dequeues_batches_in_queue_order() {
    let (state, mut rx) = AppState::start(Limits { queue_capacity: 8, ..Limits::standard() })
        .unwrap();
    for (id, key) in [(1u128, "x"), (2, "y"), (3, "z")] {
        assert_eq!(ingest(&state, posted(id, key)).response, Response::Accepted);
    }
    let mut batch = WorkerBatch::new();
    while let Ok(event) = rx.try_recv() {
        assert_eq!(batch.step(WorkerEvent::Dequeued(event)), WorkerAction::Continue);
    }
    assert_eq!(batch.step(WorkerEvent::Tick), WorkerAction::Flush);
    let rows = batch.take();
    assert_eq!(rows.iter().map(|e| e.event_id).collect::<Vec<_>>(), vec![1, 2, 3]);
}

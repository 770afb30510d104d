use tokio::sync::broadcast::error::TryRecvError;
use vector_sink::emitter::Emitter;
use vector_sink::grpc::{
    healthcheck, Code, HealthAction, HealthEvent, ServingStatus, SinkHealthcheckOptions,
    VectorGrpcRetryLogic, VectorSinkError,
};
use vector_sink::serve::{
    settle, EventBatch, PullAction, RunAction, ServeService, ServeSink,
};

fn batch(finalizers: &[u8], events: &[&'static str]) -> EventBatch<u8, &'static str> {
    EventBatch { finalizers: finalizers.to_vec(), events: events.to_vec() }
}

type Sink = ServeSink<&'static str, (), ()>;

/// A sink to which nobody has subscribed, and its service.
fn sink() -> (Sink, ServeService<&'static str>) {
    let emitter = Emitter::open(16);
    let service = ServeService { emitter: emitter.sending_half() };
    (ServeSink { emitter, batch_settings: (), shutdown_trigger: () }, service)
}

fn service() -> ServeService<&'static str> {
    sink().1
}

#[test]
fn pushed_events_are_refused() {
    let refusal = service().push_events().unwrap_err();
    assert_eq!(refusal.code, Code::Unimplemented);
    assert_eq!(refusal.message, "Sink vector does not support PushEventsRequest");
}

#[test]
fn a_refused_push_is_not_tried_again() {
    let code = service().push_events().unwrap_err().code;
    let error = VectorSinkError::Request { code, source: () };
    assert!(!VectorGrpcRetryLogic.is_retriable_error(&error));
}

#[test]
fn a_service_reports_that_it_serves() {
    assert!(matches!(service().health_check(), Ok(ServingStatus::Serving)));
}

#[test]
fn a_service_passes_the_health_check() {
    let options = SinkHealthcheckOptions { enabled: true, uri: None };
    let status = service().health_check().unwrap();
    let action: HealthAction<()> = healthcheck(&options, HealthEvent::Reported(Some(status)));
    assert!(matches!(action, HealthAction::Done(Ok(()))));
}

#[test]
fn a_subscription_is_answered_until_a_loss() {
    match ServeService::pull_next(Some(Ok::<_, u64>(vec!["a", "b"]))) {
        PullAction::Respond(events) => assert_eq!(events, vec!["a", "b"]),
        other => panic!("{:?}", other),
    }
    let lost: PullAction<&'static str, u64> = ServeService::pull_next(Some(Err(3)));
    assert!(matches!(lost, PullAction::End(Some(3))));
    let closed: PullAction<&'static str, u64> = ServeService::pull_next(None);
    assert!(matches!(closed, PullAction::End(None)));
}

#[test]
fn a_subscription_sees_what_came_before_a_loss() {
    let received = vec![Ok(vec!["a"]), Ok(vec!["b", "c"]), Err(1u64), Ok(vec!["d"])];
    let mut answered = Vec::new();
    for item in received {
        match ServeService::pull_next(Some(item)) {
            PullAction::Respond(events) => answered.push(events),
            PullAction::End(_) => break,
        }
    }
    assert_eq!(answered, vec![vec!["a"], vec!["b", "c"]]);
}

#[test]
fn a_request_for_events_subscribes_to_the_sink() {
    let (mut sink, service) = sink();
    let mut receiver = service.pull_events().into_receiver();
    assert!(matches!(sink.run(Some(batch(&[1], &["a"]))), RunAction::Release(_)));
    assert_eq!(receiver.try_recv().unwrap(), vec!["a"]);
}

#[test]
fn a_subscription_does_not_keep_the_channel_open() {
    let (sink, service) = sink();
    let mut receiver = service.pull_events().into_receiver();
    assert!(matches!(receiver.try_recv(), Err(TryRecvError::Empty)));
    drop(sink);
    drop(service);
    assert!(matches!(receiver.try_recv(), Err(TryRecvError::Closed)));
}

#[test]
fn a_subscription_starts_when_it_is_made() {
    let (mut sink, service) = sink();
    let _first = service.pull_events();
    assert!(matches!(sink.run(Some(batch(&[1], &["a"]))), RunAction::Release(_)));
    let mut receiver = service.pull_events().into_receiver();
    assert!(matches!(sink.run(Some(batch(&[2], &["b"]))), RunAction::Release(_)));
    assert_eq!(receiver.try_recv().unwrap(), vec!["b"]);
    assert!(receiver.try_recv().is_err());
}

#[test]
fn two_subscriptions_see_the_same_batches() {
    let (mut sink, service) = sink();
    let first = service.pull_events().into_receiver();
    let second = service.clone().pull_events().into_receiver();
    for events in [["a", "b"], ["c", "d"]] {
        assert!(matches!(sink.run(Some(batch(&[1], &events))), RunAction::Release(_)));
    }
    for mut receiver in [first, second] {
        assert_eq!(receiver.try_recv().unwrap(), vec!["a", "b"]);
        assert_eq!(receiver.try_recv().unwrap(), vec!["c", "d"]);
        assert!(receiver.try_recv().is_err());
    }
}

#[test]
fn a_rejected_batch_is_not_sent_again() {
    let (mut sink, service) = sink();
    assert!(matches!(sink.run(Some(batch(&[1], &["a"]))), RunAction::Reject(_)));
    let mut receiver = service.pull_events().into_receiver();
    assert!(matches!(sink.run(Some(batch(&[2], &["b"]))), RunAction::Release(_)));
    assert!(matches!(sink.run::<u8>(None), RunAction::Shutdown));
    assert_eq!(receiver.try_recv().unwrap(), vec!["b"]);
    assert!(matches!(receiver.try_recv(), Err(TryRecvError::Empty)));
}

#[test]
fn a_subscriber_is_answered_with_the_events_of_the_sink() {
    let (mut sink, service) = sink();
    let mut receiver = service.pull_events().into_receiver();
    let mut first: EventBatch<u8, &'static str> = EventBatch::default();
    first.push(vec![1], "a");
    first.push(vec![2], "b");
    let mut second: EventBatch<u8, &'static str> = EventBatch::default();
    second.push(vec![3], "c");
    for batch in [first, second] {
        assert!(matches!(sink.run(Some(batch)), RunAction::Release(_)));
    }
    let mut answered = Vec::new();
    while let Ok(events) = receiver.try_recv() {
        match ServeService::pull_next(Some(Ok::<_, u64>(events))) {
            PullAction::Respond(events) => answered.extend(events),
            other => panic!("{:?}", other),
        }
    }
    assert_eq!(answered, vec!["a", "b", "c"]);
}

#[test]
fn a_copy_of_a_service_has_the_same_channel() {
    let service = service();
    let mut receiver = service.clone().pull_events().into_receiver();
    service.emitter.send(vec!["a"]).unwrap();
    assert_eq!(receiver.try_recv().unwrap(), vec!["a"]);
}

#[test]
fn a_batch_starts_empty() {
    let batch: EventBatch<u8, u8> = EventBatch::default();
    assert!(batch.finalizers.is_empty());
    assert!(batch.events.is_empty());
}

#[test]
fn a_batch_keeps_events_and_finalizers_in_order() {
    let mut batch: EventBatch<u8, &'static str> = EventBatch::default();
    batch.push(vec![1, 2], "a");
    batch.push(vec![], "b");
    batch.push(vec![3], "c");
    assert_eq!(batch.finalizers, vec![1, 2, 3]);
    assert_eq!(batch.events, vec!["a", "b", "c"]);
}

#[test]
fn a_batch_that_nobody_takes_is_rejected() {
    match sink().0.run(Some(batch(&[1, 2], &["a", "b"]))) {
        RunAction::Reject(rejected) => {
            assert_eq!(rejected.finalizers, vec![1, 2]);
            assert_eq!(rejected.events, vec!["a", "b"]);
        }
        other => panic!("{:?}", other),
    }
}

#[test]
fn a_batch_that_someone_takes_is_released() {
    let (mut sink, service) = sink();
    let mut receiver = service.pull_events().into_receiver();
    match sink.run(Some(batch(&[1, 2], &["a", "b"]))) {
        RunAction::Release(finalizers) => assert_eq!(finalizers, vec![1, 2]),
        other => panic!("{:?}", other),
    }
    assert!(matches!(sink.run(Some(batch(&[3], &["c"]))), RunAction::Release(_)));
    assert_eq!(receiver.try_recv().unwrap(), vec!["a", "b"]);
    assert_eq!(receiver.try_recv().unwrap(), vec!["c"]);
    assert!(receiver.try_recv().is_err());
}

#[test]
fn a_sink_shuts_down_after_its_last_batch_and_sends_nothing_more() {
    let (mut sink, service) = sink();
    let mut receiver = service.pull_events().into_receiver();
    assert!(matches!(sink.run::<u8>(None), RunAction::Shutdown));
    assert!(matches!(receiver.try_recv(), Err(TryRecvError::Empty)));
}

#[test]
fn a_batch_is_settled_by_the_outcome_of_sending_it() {
    match settle(vec![1, 2], Ok::<usize, Vec<u8>>(1)) {
        RunAction::Release(finalizers) => assert_eq!(finalizers, vec![1, 2]),
        other => panic!("{:?}", other),
    }
    match settle(vec![1, 2], Err::<usize, Vec<u8>>(vec![9])) {
        RunAction::Reject(rejected) => {
            assert_eq!(rejected.finalizers, vec![1, 2]);
            assert_eq!(rejected.events, vec![9]);
        }
        other => panic!("{:?}", other),
    }
}

#[test]
fn every_finalizer_of_a_run_is_disposed_of() {
    let (mut sink, service) = sink();
    let mut disposed: Vec<u8> = Vec::new();
    let mut batches = vec![batch(&[1, 2], &["a"]), batch(&[3], &["b"]), batch(&[4], &["c"])];
    batches.reverse();
    let mut receiver = Some(service.pull_events());
    loop {
        match sink.run(batches.pop()) {
            RunAction::Release(finalizers) => disposed.extend(finalizers),
            RunAction::Reject(rejected) => disposed.extend(rejected.finalizers),
            RunAction::Shutdown => break,
        }
        receiver.take();
    }
    assert_eq!(disposed, vec![1, 2, 3, 4]);
}

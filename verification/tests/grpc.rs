use vector_sink::grpc::{
    healthcheck, Code, HealthAction, HealthEvent, ServingStatus, SinkHealthcheckOptions,
    VectorGrpcRetryLogic, VectorSinkError,
};

fn request(code: Code) -> VectorSinkError<&'static str> {
    VectorSinkError::Request { code, source: "source" }
}

fn options(enabled: bool) -> SinkHealthcheckOptions {
    SinkHealthcheckOptions { enabled, uri: None }
}

fn check(enabled: bool, event: HealthEvent<u8>) -> HealthAction<u8> {
    healthcheck(&options(enabled), event)
}

#[test]
fn permanent_codes_are_not_retried() {
    for code in [
        Code::NotFound,
        Code::InvalidArgument,
        Code::AlreadyExists,
        Code::PermissionDenied,
        Code::OutOfRange,
        Code::Unimplemented,
        Code::Unauthenticated,
        Code::DataLoss,
    ] {
        assert!(!VectorGrpcRetryLogic.is_retriable_error(&request(code)));
    }
}

#[test]
fn other_codes_are_retried() {
    for code in [
        Code::Success,
        Code::Cancelled,
        Code::Unknown,
        Code::DeadlineExceeded,
        Code::ResourceExhausted,
        Code::FailedPrecondition,
        Code::Aborted,
        Code::Internal,
        Code::Unavailable,
    ] {
        assert!(VectorGrpcRetryLogic.is_retriable_error(&request(code)));
    }
}

#[test]
fn an_unhealthy_instance_is_retried() {
    let error: VectorSinkError<()> = VectorSinkError::Health { status: None };
    assert!(VectorGrpcRetryLogic.is_retriable_error(&error));
    let error: VectorSinkError<()> = VectorSinkError::Health {
        status: Some("NOT_SERVING".to_owned()),
    };
    assert!(VectorGrpcRetryLogic.is_retriable_error(&error));
}

#[test]
fn a_disabled_health_check_asks_nothing() {
    assert!(matches!(check(false, HealthEvent::Start), HealthAction::Done(Ok(()))));
}

#[test]
fn an_enabled_health_check_asks() {
    assert!(matches!(check(true, HealthEvent::Start), HealthAction::Ask));
}

#[test]
fn a_serving_instance_is_healthy() {
    let event = HealthEvent::Reported(Some(ServingStatus::Serving));
    assert!(matches!(check(true, event), HealthAction::Done(Ok(()))));
}

#[test]
fn any_other_state_is_unhealthy() {
    let event = HealthEvent::Reported(Some(ServingStatus::Other("NOT_SERVING".to_owned())));
    match check(true, event) {
        HealthAction::Done(Err(VectorSinkError::Health { status })) => {
            assert_eq!(status.as_deref(), Some("NOT_SERVING"))
        }
        _ => panic!("not unhealthy"),
    }
    match check(true, HealthEvent::Reported(None)) {
        HealthAction::Done(Err(VectorSinkError::Health { status })) => assert_eq!(status, None),
        _ => panic!("not unhealthy"),
    }
}

#[test]
fn a_failed_health_check_keeps_its_status() {
    let event = HealthEvent::Failed { code: Code::Unavailable, source: 7 };
    match check(true, event) {
        HealthAction::Done(Err(VectorSinkError::Request { code, source })) => {
            assert_eq!(code, Code::Unavailable);
            assert_eq!(source, 7);
        }
        _ => panic!("not a failed request"),
    }
}

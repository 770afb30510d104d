use tokio::sync::broadcast::error::TryRecvError;
use vector_sink::compression::VectorCompression;
use vector_sink::config::{default_config, Input, VectorConfig, VectorMode};
use vector_sink::grpc::{healthcheck, HealthAction, HealthEvent, SinkHealthcheckOptions};
use vector_sink::serve::{config_to_serve_sink, EventBatch, RunAction};
use vector_sink::setup::{Action, Event, Facilities, SetupError, State};
use vector_sink::uri::{with_default_scheme, AddressError, InvalidUriParts, Uri};

type Config = VectorConfig<u8, Vec<u8>, u32, String, bool>;

struct Kit;

impl Facilities for Kit {
    type Event = u8;
    type Tls = String;
    type Request = u32;
    type Batch = Vec<u8>;
    type TlsSettings = &'static str;
    type Client = &'static str;
    type RequestSettings = &'static str;
    type BatchSettings = &'static str;
    type Routes = &'static str;
    type SocketAddress = &'static str;
    type Trigger = &'static str;
    type Error = &'static str;
}

fn config(mode: VectorMode, address: &str) -> Config {
    let mut config: Config = default_config(address);
    config.mode = mode;
    config.compression = VectorCompression::Zstd;
    config.batch = vec![7];
    config.request = 8;
    config.tls = Some("tls".to_owned());
    config
}

fn no_healthcheck_uri() -> SinkHealthcheckOptions {
    SinkHealthcheckOptions { enabled: true, uri: None }
}

fn tls(is_tls: bool) -> Event<Kit> {
    Event::TlsLoaded { settings: "loaded", is_tls }
}

fn push_events(is_tls: bool) -> Vec<Event<Kit>> {
    vec![
        Event::Start,
        tls(is_tls),
        Event::ClientMade("client"),
        Event::RequestSettled("request"),
        Event::BatchSettled("batch"),
    ]
}

fn serve_events() -> Vec<Event<Kit>> {
    vec![
        Event::Start,
        tls(true),
        Event::ServiceOpened("routes"),
        Event::AddressParsed(Some("address")),
        Event::ServerSpawned("trigger"),
        Event::BatchSettled("batch"),
    ]
}

/// Drives a configuration through the events; gives the actions.
fn drive<'a>(
    config: &'a Config,
    healthcheck: &SinkHealthcheckOptions,
    events: Vec<Event<Kit>>,
) -> (State<Kit>, Vec<Action<'a, Kit>>) {
    let mut state = State::Start;
    let mut actions = Vec::new();
    for event in events {
        let (next, action) = config.build(healthcheck, state, event);
        state = next;
        actions.push(action);
    }
    (state, actions)
}

fn drive_serve<'a>(
    config: &'a Config,
    address: &'a Option<String>,
    events: Vec<Event<Kit>>,
) -> (State<Kit>, Vec<Action<'a, Kit>>) {
    let mut state = State::Start;
    let mut actions = Vec::new();
    for event in events {
        let (next, action) =
            config_to_serve_sink(&config.tls, address, &config.batch, state, event);
        state = next;
        actions.push(action);
    }
    (state, actions)
}

/// The actions of a complete sink that serves; the last one is left out.
fn check_serve_actions(actions: &[Action<'_, Kit>], name: Option<&'static str>) {
    assert_eq!(actions.len(), 5);
    assert!(matches!(
        &actions[0],
        Action::LoadTls { settings: Some(settings), for_server: false } if *settings == "tls"
    ));
    match &actions[1] {
        Action::OpenService { max_decoding_message_size, health_service, .. } => {
            assert_eq!(*max_decoding_message_size, usize::MAX);
            assert_eq!(*health_service, name);
        }
        _ => panic!("no service"),
    }
    assert!(matches!(actions[2], Action::ParseAddress(address) if address == "127.0.0.1:1"));
    assert!(matches!(
        actions[3],
        Action::SpawnServer { address: "address", tls: "loaded", routes: "routes" }
    ));
    assert!(matches!(actions[4], Action::SettleBatch(batch) if *batch == vec![7]));
}

/// The last action of a complete sink that serves, which reads from `service`.
fn check_serve_sink(action: Action<'_, Kit>, service: &Action<'_, Kit>) {
    let (mut sink, options) = match action {
        Action::FinishServe { sink, healthcheck } => (sink, healthcheck),
        _ => panic!("not complete"),
    };
    assert_eq!(sink.batch_settings, "batch");
    assert_eq!(sink.shutdown_trigger, "trigger");
    let action: HealthAction<()> = healthcheck(&options, HealthEvent::Start);
    assert!(matches!(action, HealthAction::Done(Ok(()))));

    let mut receiver = match service {
        Action::OpenService { service, .. } => service.pull_events().into_receiver(),
        _ => panic!("no service"),
    };
    let batch: EventBatch<(), u8> = EventBatch { finalizers: vec![], events: vec![1, 2] };
    assert!(matches!(sink.run(Some(batch)), RunAction::Release(_)));
    assert_eq!(receiver.try_recv().unwrap(), vec![1, 2]);
    assert!(receiver.try_recv().is_err());
}

#[test]
fn the_default_configuration_pushes_uncompressed() {
    let config: Config = default_config("host:1");
    assert_eq!(config.version, None);
    assert_eq!(config.mode, VectorMode::Push);
    assert_eq!(config.address, "host:1");
    assert_eq!(config.compression, VectorCompression::Uncompressed);
    assert_eq!(config.batch, Vec::<u8>::new());
    assert_eq!(config.request, 0);
    assert_eq!(config.tls, None);
    assert!(!config.acknowledgements);
    assert!(!config.acknowledgements());
}

#[test]
fn a_sink_takes_events_of_every_kind() {
    for mode in [VectorMode::Push, VectorMode::Serve] {
        let input = config(mode, "host:1").input();
        assert_eq!(input, Input { log: true, metric: true, trace: true });
    }
}

#[test]
fn the_generated_configuration_has_an_example_address() {
    let config = Config::generate_config();
    assert_eq!(config.address, "127.0.0.1:6000");
    assert_eq!(config.mode, VectorMode::Push);
}

#[test]
fn a_configuration_has_the_address_of_its_uri() {
    let uri = with_default_scheme("host:1", true).unwrap();
    let config = Config::from_address(uri);
    assert_eq!(config.address, "https://host:1/");
    assert_eq!(config.compression, VectorCompression::Uncompressed);
}

#[test]
fn a_configuration_connects_to_its_uri() {
    let uri = Uri::read("https://host:1").unwrap();
    let config = Config::from_address(uri);
    let events = vec![Event::Start, tls(false)];
    match drive(&config, &no_healthcheck_uri(), events).0 {
        State::Client(uri) => assert_eq!(uri.text(), "https://host:1/"),
        _ => panic!("no client is waited for"),
    }
}

#[test]
fn acknowledgements_are_those_of_the_configuration() {
    let mut config: Config = default_config("host:1");
    config.acknowledgements = true;
    assert!(*config.acknowledgements());
}

#[test]
fn compression_can_be_switched() {
    assert_eq!(VectorCompression::from_switch(true), VectorCompression::Gzip);
    assert_eq!(VectorCompression::from_switch(false), VectorCompression::Uncompressed);
}

#[test]
fn a_push_sink_is_put_together() {
    let config = config(VectorMode::Push, "host:1");
    let (state, mut actions) = drive(&config, &no_healthcheck_uri(), push_events(true));
    assert!(matches!(state, State::Done));
    assert_eq!(actions.len(), 5);
    assert!(matches!(
        &actions[0],
        Action::LoadTls { settings: Some(settings), for_server: false } if *settings == "tls"
    ));
    assert!(matches!(actions[1], Action::MakeClient { tls: "loaded", http2_only: true }));
    assert!(matches!(actions[2], Action::SettleRequest(8)));
    assert!(matches!(actions[3], Action::SettleBatch(batch) if *batch == vec![7]));
    match actions.pop() {
        Some(Action::FinishPush(sink)) => {
            assert_eq!(sink.client, "client");
            assert_eq!(sink.uri.text(), "https://host:1/");
            assert_eq!(sink.compression, VectorCompression::Zstd);
            assert_eq!(sink.request_settings, "request");
            assert_eq!(sink.batch_settings, "batch");
            assert!(sink.healthcheck.enabled);
            assert_eq!(sink.healthcheck_uri.text(), "https://host:1/");
            assert_eq!(sink.healthcheck_compression, VectorCompression::Uncompressed);
        }
        _ => panic!("not complete"),
    }
}

#[test]
fn a_health_check_may_ask_elsewhere() {
    let uri: Uri = with_default_scheme("http://health:2/x", false).unwrap();
    let healthcheck = SinkHealthcheckOptions { enabled: false, uri: Some(uri) };
    let config = config(VectorMode::Push, "host:1");
    let (_, mut actions) = drive(&config, &healthcheck, push_events(false));
    match actions.pop() {
        Some(Action::FinishPush(sink)) => {
            assert_eq!(sink.uri.text(), "http://host:1/");
            assert!(!sink.healthcheck.enabled);
            assert_eq!(sink.healthcheck_uri.text(), "http://health:2/x");
        }
        _ => panic!("not complete"),
    }
}

#[test]
fn a_push_sink_needs_an_address_to_connect_to() {
    let path = config(VectorMode::Push, "/");
    let (state, actions) = drive(&path, &no_healthcheck_uri(), vec![Event::Start, tls(false)]);
    assert!(matches!(state, State::Done));
    assert!(matches!(
        actions[1],
        Action::Fail {
            error: SetupError::Address(AddressError::InvalidUriParts(
                InvalidUriParts::AuthorityMissing
            )),
            stop: None,
        }
    ));

    let empty = config(VectorMode::Push, "");
    let (state, actions) = drive(&empty, &no_healthcheck_uri(), vec![Event::Start, tls(false)]);
    assert!(matches!(state, State::Done));
    assert!(matches!(
        actions[1],
        Action::Fail { error: SetupError::Address(AddressError::InvalidUri(_)), stop: None }
    ));
}

#[test]
fn a_failure_ends_a_push_sink() {
    for done in [1, 2, 4] {
        let mut events = push_events(true);
        events.truncate(done);
        events.push(Event::Failed("failure"));
        let config = config(VectorMode::Push, "host:1");
        let (state, mut actions) = drive(&config, &no_healthcheck_uri(), events);
        assert!(matches!(state, State::Done));
        assert!(matches!(
            actions.pop(),
            Some(Action::Fail { error: SetupError::Failed("failure"), stop: None })
        ));
    }
}

#[test]
fn a_serve_sink_is_put_together() {
    let config = config(VectorMode::Serve, "127.0.0.1:1");
    let (state, mut actions) = drive(&config, &no_healthcheck_uri(), serve_events());
    assert!(matches!(state, State::Done));
    let last = actions.pop().unwrap();
    check_serve_actions(&actions, None);
    check_serve_sink(last, &actions[1]);
}

/// The reader of a complete sink that serves, after as many batches as are given.
fn lag_after(batches: u32) -> Option<u64> {
    let config = config(VectorMode::Serve, "127.0.0.1:1");
    let (_, mut actions) = drive(&config, &no_healthcheck_uri(), serve_events());
    let mut receiver = match &actions[1] {
        Action::OpenService { service, .. } => service.pull_events().into_receiver(),
        _ => panic!("no service"),
    };
    let mut sink = match actions.pop() {
        Some(Action::FinishServe { sink, .. }) => sink,
        _ => panic!("not complete"),
    };
    for _ in 0..batches {
        let batch: EventBatch<(), u8> = EventBatch { finalizers: vec![], events: vec![1] };
        assert!(matches!(sink.run(Some(batch)), RunAction::Release(_)));
    }
    match receiver.try_recv() {
        Ok(_) => None,
        Err(TryRecvError::Lagged(lost)) => Some(lost),
        Err(other) => panic!("{:?}", other),
    }
}

#[test]
fn a_reader_may_fall_ten_thousand_batches_behind() {
    assert_eq!(lag_after(10000), None);
    assert!(lag_after(20000).is_some());
}

#[test]
fn bad_batch_settings_stop_the_server_again() {
    let mut events = serve_events();
    events.pop();
    events.push(Event::Failed("batch"));
    let config = config(VectorMode::Serve, "127.0.0.1:1");
    let (state, actions) = drive(&config, &no_healthcheck_uri(), events);
    assert!(matches!(state, State::Done));
    assert!(matches!(actions[3], Action::SpawnServer { .. }));
    assert!(matches!(
        actions[5],
        Action::Fail { error: SetupError::Failed("batch"), stop: Some("trigger") }
    ));
}

#[test]
fn a_sink_serves_on_the_address_of_its_configuration() {
    let config = config(VectorMode::Serve, "unused");
    let address = Some("127.0.0.1:1".to_owned());
    let (state, mut actions) = drive_serve(&config, &address, serve_events());
    assert!(matches!(state, State::Done));
    let last = actions.pop().unwrap();
    check_serve_actions(&actions, Some("vector.Vector"));
    check_serve_sink(last, &actions[1]);
}

#[test]
fn the_mode_does_not_matter_to_a_sink_that_serves_on_its_address() {
    let mut config = config(VectorMode::Push, "unused");
    config.compression = VectorCompression::Gzip;
    config.request = 9;
    config.acknowledgements = true;
    let address = Some("127.0.0.1:1".to_owned());
    let (state, mut actions) = drive_serve(&config, &address, serve_events());
    assert!(matches!(state, State::Done));
    let last = actions.pop().unwrap();
    check_serve_actions(&actions, Some("vector.Vector"));
    check_serve_sink(last, &actions[1]);
}

#[test]
fn a_sink_cannot_serve_without_an_address() {
    let config = config(VectorMode::Serve, "unused");
    let mut events = serve_events();
    events.truncate(3);
    let (state, actions) = drive_serve(&config, &None, events);
    assert!(matches!(state, State::Done));
    match &actions[2] {
        Action::Fail { error, stop } => {
            assert!(matches!(error, SetupError::AddressMissing));
            assert_eq!(error.serve_message(), Some("address must be defined if mode is serve"));
            assert_eq!(*stop, None);
        }
        _ => panic!("no failure"),
    }
}

#[test]
fn a_sink_cannot_serve_on_what_is_no_socket_address() {
    let config = config(VectorMode::Serve, "unused");
    let address = Some("localhost".to_owned());
    let mut events = serve_events();
    events.truncate(3);
    events.push(Event::AddressParsed(None));
    let (state, actions) = drive_serve(&config, &address, events);
    assert!(matches!(state, State::Done));
    match &actions[3] {
        Action::Fail { error, stop } => {
            assert!(matches!(error, SetupError::AddressInvalid));
            assert_eq!(error.serve_message(), Some("failed to parse address into SocketAddr"));
            assert_eq!(*stop, None);
        }
        _ => panic!("no failure"),
    }
}

#[test]
fn a_failure_ends_a_sink_that_serves() {
    let config = config(VectorMode::Serve, "unused");
    let address = Some("127.0.0.1:1".to_owned());
    let events = vec![Event::Start, Event::Failed("tls")];
    let (state, actions) = drive_serve(&config, &address, events);
    assert!(matches!(state, State::Done));
    match &actions[1] {
        Action::Fail { error, stop } => {
            assert!(matches!(error, SetupError::Failed("tls")));
            assert_eq!(error.serve_message(), None);
            assert_eq!(*stop, None);
        }
        _ => panic!("no failure"),
    }
}

//! How a sink is put together, step by step.
//!
//! Loading certificates, making connections and starting servers is the caller's
//! work. A step takes what the caller has just done and says what comes next.

use vstd::prelude::*;

use crate::compression::VectorCompression;
use crate::emitter::Emitter;
use crate::grpc::SinkHealthcheckOptions;
use crate::serve::{ServeService, ServeSink};
use crate::uri::{AddressError, Uri};

verus! {

/// The types of what the caller works with.
pub trait Facilities {
    /// An event, in the form in which it is handed out.
    type Event: Clone;

    /// The TLS settings of a configuration.
    type Tls;

    /// The request settings of a configuration.
    type Request;

    /// The batch settings of a configuration.
    type Batch;

    /// TLS settings with everything that they name loaded.
    type TlsSettings;

    /// A client of a downstream instance.
    type Client;

    /// Request settings that requests can be sent by.
    type RequestSettings;

    /// Batch settings that batches can be filled by.
    type BatchSettings;

    /// The routes of a server.
    type Routes;

    /// An address to listen on.
    type SocketAddress;

    /// What stops a server: the server stops when its trigger is let go of.
    type Trigger;

    /// Why the caller could not do what it was told to.
    type Error;
}

/// A sink that pushes to a downstream instance, and its health check.
#[verifier::reject_recursive_types(P)]
pub struct PushSink<P: Facilities> {
    /// What requests go through.
    pub client: P::Client,
    /// Where the events go.
    pub uri: Uri,
    /// How requests are compressed.
    pub compression: VectorCompression,
    /// How requests are sent, and sent again where `VectorGrpcRetryLogic` says so.
    pub request_settings: P::RequestSettings,
    /// When a batch is full.
    pub batch_settings: P::BatchSettings,
    /// How the downstream instance is checked.
    pub healthcheck: SinkHealthcheckOptions,
    /// Where the health check asks.
    pub healthcheck_uri: Uri,
    /// How the requests of the health check are compressed.
    pub healthcheck_compression: VectorCompression,
}

/// What a sink that is being put together waits for, and what it has so far.
#[verifier::reject_recursive_types(P)]
pub enum State<P: Facilities> {
    /// Nothing has been done.
    Start,
    /// The TLS settings.
    Tls,
    /// A client for this URI.
    Client(Uri),
    /// The request settings.
    Request(Uri, P::Client),
    /// The batch settings of a sink that pushes.
    PushBatch(Uri, P::Client, P::RequestSettings),
    /// A service that hands the batches out.
    Service(Emitter<Vec<P::Event>>, P::TlsSettings),
    /// The socket address to listen on.
    Address(Emitter<Vec<P::Event>>, P::TlsSettings, P::Routes),
    /// The task of the server.
    Server(Emitter<Vec<P::Event>>),
    /// The batch settings of a sink that serves.
    ServeBatch(Emitter<Vec<P::Event>>, P::Trigger),
    /// Nothing: it is put together, or has failed.
    Done,
}

/// What the caller has done.
#[verifier::reject_recursive_types(P)]
pub enum Event<P: Facilities> {
    /// It asks for the first step.
    Start,
    /// It has the TLS settings, with TLS on or off.
    TlsLoaded { settings: P::TlsSettings, is_tls: bool },
    /// It has made the client.
    ClientMade(P::Client),
    /// It has the request settings.
    RequestSettled(P::RequestSettings),
    /// It has opened the service, under these routes.
    ServiceOpened(P::Routes),
    /// It has tried to read the socket address.
    AddressParsed(Option<P::SocketAddress>),
    /// It has handed the server to a task of its own, and this stops it.
    ServerSpawned(P::Trigger),
    /// It has the batch settings.
    BatchSettled(P::BatchSettings),
    /// It could not do what it was told to.
    Failed(P::Error),
}

/// What the caller does next.
#[verifier::reject_recursive_types(P)]
pub enum Action<'a, P: Facilities> {
    /// Load these TLS settings, as those of a server or of a client.
    LoadTls { settings: Option<&'a P::Tls>, for_server: bool },
    /// Make a client with these TLS settings and the proxy, for HTTP/2 alone or not.
    MakeClient { tls: P::TlsSettings, http2_only: bool },
    /// Derive the settings that requests are sent by.
    SettleRequest(&'a P::Request),
    /// Open this service, for messages of up to this many bytes. Where a name is given,
    /// report the service of that name as serving, to whoever asks for its health.
    OpenService {
        service: ServeService<P::Event>,
        max_decoding_message_size: usize,
        health_service: Option<&'static str>,
    },
    /// Read this text as a socket address.
    ParseAddress(&'a String),
    /// Serve these routes on this address, with these TLS settings and the usual
    /// keepalive, from a task of its own.
    SpawnServer { address: P::SocketAddress, tls: P::TlsSettings, routes: P::Routes },
    /// Derive the settings that batches are filled by.
    SettleBatch(&'a P::Batch),
    /// The sink is complete: it pushes.
    FinishPush(PushSink<P>),
    /// The sink is complete: it serves, and is checked in this way.
    FinishServe {
        sink: ServeSink<P::Event, P::BatchSettings, P::Trigger>,
        healthcheck: SinkHealthcheckOptions,
    },
    /// There is no sink. A server that has been started is stopped: its trigger is let
    /// go of.
    Fail { error: SetupError<P::Error>, stop: Option<P::Trigger> },
}

/// Why there is no sink.
#[derive(Debug)]
pub enum SetupError<E> {
    /// The address gives no URI to connect to.
    Address(AddressError),
    /// There is no address to serve on.
    AddressMissing,
    /// The address to serve on is no socket address.
    AddressInvalid,
    /// The caller could not do what it was told to.
    Failed(E),
}

impl<E> SetupError<E> {
    /// The text of an error about the address to serve on.
    pub fn serve_message(&self) -> (message: Option<&'static str>)
        ensures
            match self {
                SetupError::AddressMissing => message matches Some(text) && text@
                    == "address must be defined if mode is serve"@,
                SetupError::AddressInvalid => message matches Some(text) && text@
                    == "failed to parse address into SocketAddr"@,
                _ => message is None,
            },
    {
        match self {
            SetupError::AddressMissing => Some("address must be defined if mode is serve"),
            SetupError::AddressInvalid => Some("failed to parse address into SocketAddr"),
            _ => None,
        }
    }
}

impl<P: Facilities> State<P> {
    /// The event can follow in this state.
    pub open spec fn awaits(self, event: Event<P>) -> bool {
        match self {
            State::Start => event is Start,
            State::Tls => event is TlsLoaded || event is Failed,
            State::Client(..) => event is ClientMade || event is Failed,
            State::Request(..) => event is RequestSettled,
            State::PushBatch(..) => event is BatchSettled || event is Failed,
            State::Service(..) => event is ServiceOpened,
            State::Address(..) => event is AddressParsed,
            State::Server(..) => event is ServerSpawned,
            State::ServeBatch(..) => event is BatchSettled || event is Failed,
            State::Done => false,
        }
    }

    /// The sink is one that serves, and its channel is open.
    pub open spec fn is_serving(self) -> bool {
        ||| self is Service
        ||| self is Address
        ||| self is Server
        ||| self is ServeBatch
    }
}

/// How many batches a slow reader may fall behind before it loses some.
pub const EMITTER_CAPACITY: usize = 10000;

/// The first step: the TLS settings are loaded, and always as those of a client.
pub open spec fn loads_tls<P: Facilities>(
    tls: Option<P::Tls>,
    next: State<P>,
    action: Action<P>,
) -> bool {
    &&& next == State::<P>::Tls
    &&& action matches Action::LoadTls { settings, for_server }
    &&& settings == match tls {
        Some(tls) => Some(&tls),
        None => None,
    }
    &&& !for_server
}

/// The step with which a sink that serves begins: it has a channel of its own, to which
/// nothing has been sent, and its service reads from that channel.
pub open spec fn opens_service<P: Facilities>(
    tls: P::TlsSettings,
    health_name: Option<&'static str>,
    next: State<P>,
    action: Action<P>,
) -> bool {
    &&& next matches State::Service(emitter, t)
    &&& t == tls
    &&& emitter.capacity() == EMITTER_CAPACITY
    &&& emitter.log() == Seq::<(Vec<P::Event>, Result<usize, Vec<P::Event>>)>::empty()
    &&& action matches Action::OpenService {
        service,
        max_decoding_message_size,
        health_service,
    }
    &&& service.emitter == emitter.channel()
    &&& max_decoding_message_size == usize::MAX
    &&& health_service == health_name
}

/// A step after which there is no sink.
pub open spec fn fails<P: Facilities>(
    error: SetupError<P::Error>,
    stop: Option<P::Trigger>,
    next: State<P>,
    action: Action<P>,
) -> bool {
    &&& next == State::<P>::Done
    &&& action matches Action::Fail { error: e, stop: s }
    &&& e == error
    &&& s == stop
}

/// A sink that serves takes the step from `state` to `next`, and does `action`.
///
/// The server starts before the batch settings are derived, and is stopped again where
/// that fails.
pub open spec fn serve_step<P: Facilities>(
    address: Option<String>,
    batch: P::Batch,
    state: State<P>,
    event: Event<P>,
    next: State<P>,
    action: Action<P>,
) -> bool {
    match (state, event) {
        (State::Service(emitter, tls), Event::ServiceOpened(routes)) => match address {
            Some(address) => {
                &&& next == State::<P>::Address(emitter, tls, routes)
                &&& action == Action::<P>::ParseAddress(&address)
            },
            None => fails(SetupError::AddressMissing, None, next, action),
        },
        (State::Address(emitter, tls, routes), Event::AddressParsed(Some(address))) => {
            &&& next == State::<P>::Server(emitter)
            &&& action matches Action::SpawnServer { address: a, tls: t, routes: r }
            &&& a == address
            &&& t == tls
            &&& r == routes
        },
        (State::Address(..), Event::AddressParsed(None)) => fails(
            SetupError::AddressInvalid,
            None,
            next,
            action,
        ),
        (State::Server(emitter), Event::ServerSpawned(trigger)) => {
            &&& next == State::<P>::ServeBatch(emitter, trigger)
            &&& action == Action::<P>::SettleBatch(&batch)
        },
        (State::ServeBatch(emitter, trigger), Event::BatchSettled(batch_settings)) => {
            &&& next == State::<P>::Done
            &&& action matches Action::FinishServe { sink, healthcheck }
            &&& sink == ServeSink { emitter, batch_settings, shutdown_trigger: trigger }
            &&& healthcheck == SinkHealthcheckOptions { enabled: false, uri: None }
        },
        (State::ServeBatch(_, trigger), Event::Failed(error)) => fails(
            SetupError::Failed(error),
            Some(trigger),
            next,
            action,
        ),
        _ => false,
    }
}

/// Opens the channel of a sink that serves, once its TLS settings are loaded.
pub(crate) fn open_service<'a, P: Facilities>(
    tls: P::TlsSettings,
    health_service: Option<&'static str>,
) -> (r: (State<P>, Action<'a, P>))
    ensures
        opens_service(tls, health_service, r.0, r.1),
{
    let emitter = Emitter::open(EMITTER_CAPACITY);
    let service = ServeService { emitter: emitter.sending_half() };
    let action = Action::OpenService {
        service,
        max_decoding_message_size: usize::MAX,
        health_service,
    };
    (State::Service(emitter, tls), action)
}

/// The step of a sink that serves, once its service is being opened.
pub(crate) fn next_serve_step<'a, P: Facilities>(
    address: Option<&'a String>,
    batch: &'a P::Batch,
    state: State<P>,
    event: Event<P>,
) -> (r: (State<P>, Action<'a, P>))
    requires
        state.is_serving(),
        state.awaits(event),
    ensures
        serve_step(
            match address {
                Some(address) => Some(*address),
                None => None,
            },
            *batch,
            state,
            event,
            r.0,
            r.1,
        ),
{
    match (state, event) {
        (State::Service(emitter, tls), Event::ServiceOpened(routes)) => match address {
            Some(address) => (
                State::Address(emitter, tls, routes),
                Action::ParseAddress(address),
            ),
            None => (
                State::Done,
                Action::Fail { error: SetupError::AddressMissing, stop: None },
            ),
        },
        (State::Address(emitter, tls, routes), Event::AddressParsed(Some(address))) => (
            State::Server(emitter),
            Action::SpawnServer { address, tls, routes },
        ),
        (State::Address(..), _) => (
            State::Done,
            Action::Fail { error: SetupError::AddressInvalid, stop: None },
        ),
        (State::Server(emitter), Event::ServerSpawned(trigger)) => (
            State::ServeBatch(emitter, trigger),
            Action::SettleBatch(batch),
        ),
        (State::ServeBatch(emitter, trigger), Event::BatchSettled(batch_settings)) => (
            State::Done,
            Action::FinishServe {
                sink: ServeSink { emitter, batch_settings, shutdown_trigger: trigger },
                healthcheck: SinkHealthcheckOptions { enabled: false, uri: None },
            },
        ),
        (State::ServeBatch(_, trigger), Event::Failed(error)) => (
            State::Done,
            Action::Fail { error: SetupError::Failed(error), stop: Some(trigger) },
        ),
        _ => vstd::pervasive::unreached(),
    }
}

} // verus!

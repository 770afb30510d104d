//! The configuration of the sink, and the sink that it describes.

use vstd::prelude::*;

use crate::compression::VectorCompression;
use crate::grpc::SinkHealthcheckOptions;
use crate::setup::{
    next_serve_step, open_service, Action, Event, Facilities, PushSink, SetupError, State,
};
use crate::uri::{with_default_scheme, Uri};

verus! {

/// What the sink does with its events.
#[derive(Clone, Copy, Debug, PartialEq, Eq, Structural)]
pub enum VectorMode {
    /// It sends them to a downstream instance.
    Push,
    /// It hands them to the downstream instances that ask for them.
    Serve,
}

/// The kinds of events.
#[derive(Clone, Copy, Debug, PartialEq, Eq, Structural)]
pub enum DataType {
    Log,
    Metric,
    Trace,
}

/// The kinds of events that a sink takes.
#[derive(Clone, Copy, Debug, PartialEq, Eq, Structural)]
pub struct Input {
    pub log: bool,
    pub metric: bool,
    pub trace: bool,
}

impl Input {
    /// The sink takes events of this kind.
    pub open spec fn takes(self, kind: DataType) -> bool {
        match kind {
            DataType::Log => self.log,
            DataType::Metric => self.metric,
            DataType::Trace => self.trace,
        }
    }
}

/// The configuration of the sink.
///
/// The settings that the sink only hands on have types of the caller's choice: `V` is
/// the version of the configuration, `B` the batch settings, `R` the request settings,
/// `T` the TLS settings, and `A` the settings of the acknowledgements.
#[derive(Clone, Debug)]
pub struct VectorConfig<V, B, R, T, A> {
    /// The version of the configuration, which is no longer of use.
    pub version: Option<V>,
    /// What the sink does with its events.
    pub mode: VectorMode,
    /// The address to connect to, or to listen on, with a port.
    pub address: String,
    /// How requests are compressed.
    pub compression: VectorCompression,
    /// When a batch is full.
    pub batch: B,
    /// How requests are sent.
    pub request: R,
    /// How connections are secured.
    pub tls: Option<T>,
    /// How events are acknowledged.
    pub acknowledgements: A,
}

/// The configuration holds this address, and is the default one in all else.
pub open spec fn is_default_config<V, B: Default, R: Default, T, A: Default>(
    config: VectorConfig<V, B, R, T, A>,
    address: Seq<char>,
) -> bool {
    &&& config.version is None
    &&& config.mode == VectorMode::Push
    &&& config.address@ == address
    &&& config.compression == VectorCompression::Uncompressed
    &&& call_ensures(B::default, (), config.batch)
    &&& call_ensures(R::default, (), config.request)
    &&& config.tls is None
    &&& call_ensures(A::default, (), config.acknowledgements)
}

/// The default configuration, with this address.
pub fn default_config<V, B: Default, R: Default, T, A: Default>(address: &str) -> (config:
    VectorConfig<V, B, R, T, A>)
    ensures
        is_default_config(config, address@),
{
    VectorConfig {
        version: None,
        mode: VectorMode::Push,
        address: address.to_owned(),
        compression: VectorCompression::Uncompressed,
        batch: B::default(),
        request: R::default(),
        tls: None,
        acknowledgements: A::default(),
    }
}

impl<V, B: Default, R: Default, T, A: Default> VectorConfig<V, B, R, T, A> {
    /// The default configuration, with the address of a URI.
    pub fn from_address(addr: Uri) -> (config: Self)
        ensures
            is_default_config(config, addr@.text()),
    {
        let addr = addr.text();
        default_config(addr.as_str())
    }

    /// An example of a configuration.
    pub fn generate_config() -> (config: Self)
        ensures
            is_default_config(config, "127.0.0.1:6000"@),
    {
        default_config("127.0.0.1:6000")
    }
}

impl<V, B, R, T, A> VectorConfig<V, B, R, T, A> {
    /// The sink takes events of every kind.
    pub fn input(&self) -> (input: Input)
        ensures
            forall|kind: DataType| input.takes(kind),
    {
        Input { log: true, metric: true, trace: true }
    }

    /// How events are acknowledged.
    pub fn acknowledgements(&self) -> (acknowledgements: &A)
        ensures
            *acknowledgements == self.acknowledgements,
    {
        &self.acknowledgements
    }

    /// The sink of this configuration takes the step from `state` to `next`, and does
    /// `action`.
    pub open spec fn build_step<P: Facilities<Tls = T, Request = R, Batch = B>>(
        self,
        healthcheck: SinkHealthcheckOptions,
        state: State<P>,
        event: Event<P>,
        next: State<P>,
        action: Action<P>,
    ) -> bool {
        match (state, event) {
            (State::Start, _) => crate::setup::loads_tls(self.tls, next, action),
            (State::Tls, Event::TlsLoaded { settings, is_tls }) => match self.mode {
                VectorMode::Push => match crate::uri::resolved(self.address@, is_tls) {
                    Ok(resolved) => {
                        &&& next matches State::Client(uri)
                        &&& uri@ == resolved
                        &&& action matches Action::MakeClient { tls, http2_only }
                        &&& tls == settings
                        &&& http2_only
                    },
                    Err(error) => crate::setup::fails(
                        SetupError::Address(error),
                        None,
                        next,
                        action,
                    ),
                },
                VectorMode::Serve => crate::setup::opens_service(settings, None, next, action),
            },
            (State::Client(uri), Event::ClientMade(client)) => {
                &&& next == State::<P>::Request(uri, client)
                &&& action == Action::<P>::SettleRequest(&self.request)
            },
            (State::Request(uri, client), Event::RequestSettled(request_settings)) => {
                &&& next == State::<P>::PushBatch(uri, client, request_settings)
                &&& action == Action::<P>::SettleBatch(&self.batch)
            },
            (
                State::PushBatch(uri, client, request_settings),
                Event::BatchSettled(batch_settings),
            ) => {
                &&& next == State::<P>::Done
                &&& action matches Action::FinishPush(sink)
                &&& sink == PushSink::<P> {
                    client,
                    uri,
                    compression: self.compression,
                    request_settings,
                    batch_settings,
                    healthcheck,
                    healthcheck_uri: match healthcheck.uri {
                        Some(healthcheck_uri) => healthcheck_uri,
                        None => uri,
                    },
                    healthcheck_compression: VectorCompression::Uncompressed,
                }
            },
            (State::Tls, Event::Failed(error)) => crate::setup::fails(
                SetupError::Failed(error),
                None,
                next,
                action,
            ),
            (State::Client(..), Event::Failed(error)) => crate::setup::fails(
                SetupError::Failed(error),
                None,
                next,
                action,
            ),
            (State::PushBatch(..), Event::Failed(error)) => crate::setup::fails(
                SetupError::Failed(error),
                None,
                next,
                action,
            ),
            _ => crate::setup::serve_step(
                Some(self.address),
                self.batch,
                state,
                event,
                next,
                action,
            ),
        }
    }

    /// Puts the sink together that this configuration describes.
    ///
    /// A sink that serves must have a socket address for its address.
    pub fn build<'a, P: Facilities<Tls = T, Request = R, Batch = B>>(
        &'a self,
        healthcheck: &SinkHealthcheckOptions,
        state: State<P>,
        event: Event<P>,
    ) -> (r: (State<P>, Action<'a, P>))
        requires
            state.awaits(event),
            event is AddressParsed ==> event->AddressParsed_0 is Some,
        ensures
            self.build_step(*healthcheck, state, event, r.0, r.1),
    {
        match (state, event) {
            (State::Start, _) => (
                State::Tls,
                Action::LoadTls { settings: self.tls.as_ref(), for_server: false },
            ),
            (State::Tls, Event::TlsLoaded { settings, is_tls }) => match self.mode {
                VectorMode::Push => match with_default_scheme(self.address.as_str(), is_tls) {
                    Ok(uri) => (
                        State::Client(uri),
                        Action::MakeClient { tls: settings, http2_only: true },
                    ),
                    Err(error) => (
                        State::Done,
                        Action::Fail { error: SetupError::Address(error), stop: None },
                    ),
                },
                VectorMode::Serve => open_service(settings, None),
            },
            (State::Client(uri), Event::ClientMade(client)) => (
                State::Request(uri, client),
                Action::SettleRequest(&self.request),
            ),
            (State::Request(uri, client), Event::RequestSettled(request_settings)) => (
                State::PushBatch(uri, client, request_settings),
                Action::SettleBatch(&self.batch),
            ),
            (
                State::PushBatch(uri, client, request_settings),
                Event::BatchSettled(batch_settings),
            ) => {
                let healthcheck_uri = match &healthcheck.uri {
                    Some(healthcheck_uri) => healthcheck_uri.clone(),
                    None => uri.clone(),
                };
                let sink = PushSink {
                    client,
                    uri,
                    compression: self.compression,
                    request_settings,
                    batch_settings,
                    healthcheck: healthcheck.clone(),
                    healthcheck_uri,
                    healthcheck_compression: VectorCompression::Uncompressed,
                };
                (State::Done, Action::FinishPush(sink))
            },
            (State::Tls, Event::Failed(error)) => (
                State::Done,
                Action::Fail { error: SetupError::Failed(error), stop: None },
            ),
            (State::Client(..), Event::Failed(error)) => (
                State::Done,
                Action::Fail { error: SetupError::Failed(error), stop: None },
            ),
            (State::PushBatch(..), Event::Failed(error)) => (
                State::Done,
                Action::Fail { error: SetupError::Failed(error), stop: None },
            ),
            (state, event) => next_serve_step(Some(&self.address), &self.batch, state, event),
        }
    }
}

} // verus!

//! What holds of every attempt to put a sink together.

use vstd::prelude::*;

use crate::compression::VectorCompression;
use crate::config::{VectorConfig, VectorMode};
use crate::emitter::Subscription;
use crate::grpc::{HealthAction, HealthEvent, SinkHealthcheckOptions};
use crate::setup::{Action, Event, Facilities, PushSink, SetupError, State};
use crate::uri::{AddressError, InvalidUriParts, Uri};

verus! {

/// An attempt to put a sink together, from its first step on: what the caller did, what
/// was waited for before and after each of it, and what the caller was told to do.
#[verifier::reject_recursive_types(P)]
pub struct Attempt<'a, P: Facilities> {
    pub events: Seq<Event<P>>,
    pub states: Seq<State<P>>,
    pub actions: Seq<Action<'a, P>>,
}

impl<'a, P: Facilities> Attempt<'a, P> {
    /// The caller does what was waited for, from the start on.
    pub open spec fn is_orderly(self) -> bool {
        &&& self.states.len() == self.events.len() + 1
        &&& self.actions.len() == self.events.len()
        &&& self.states[0] == State::<P>::Start
        &&& forall|i: int|
            0 <= i < self.events.len() ==> self.states[i].awaits(#[trigger] self.events[i])
    }

    /// The attempt goes as a sink wants it that serves from a configuration with these TLS
    /// settings, this address and these batch settings.
    pub open spec fn serves(
        self,
        tls: Option<P::Tls>,
        address: Option<String>,
        batch: P::Batch,
    ) -> bool {
        &&& self.is_orderly()
        &&& forall|i: int|
            0 <= i < self.events.len() ==> crate::serve::config_step(
                tls,
                address,
                batch,
                self.states[i],
                #[trigger] self.events[i],
                self.states[i + 1],
                self.actions[i],
            )
    }
}

impl<'a, T, R, B, P: Facilities<Tls = T, Request = R, Batch = B>> Attempt<'a, P> {
    /// The attempt goes as a configuration wants it.
    pub open spec fn follows<V, A>(
        self,
        config: VectorConfig<V, B, R, T, A>,
        healthcheck: SinkHealthcheckOptions,
    ) -> bool {
        &&& self.is_orderly()
        &&& forall|i: int|
            0 <= i < self.events.len() ==> config.build_step(
                healthcheck,
                self.states[i],
                #[trigger] self.events[i],
                self.states[i + 1],
                self.actions[i],
            )
    }
}

/// The action is the last one of an attempt.
pub open spec fn is_verdict<P: Facilities>(action: Action<P>) -> bool {
    action is FinishPush || action is FinishServe || action is Fail
}

/// The action is one of a sink that pushes.
pub open spec fn is_of_push<P: Facilities>(action: Action<P>) -> bool {
    action is MakeClient || action is SettleRequest || action is FinishPush
}

/// The action is one of a sink that serves.
pub open spec fn is_of_serve<P: Facilities>(action: Action<P>) -> bool {
    ||| action is OpenService
    ||| action is ParseAddress
    ||| action is SpawnServer
    ||| action is FinishServe
}

/// The states that a configuration of this mode gets into.
spec fn is_state_of<P: Facilities>(mode: VectorMode, state: State<P>) -> bool {
    match mode {
        VectorMode::Push => !state.is_serving(),
        VectorMode::Serve => !(state is Client) && !(state is Request) && !(state is PushBatch),
    }
}

proof fn lemma_step<V, B, R, T, A, P: Facilities<Tls = T, Request = R, Batch = B>>(
    config: VectorConfig<V, B, R, T, A>,
    healthcheck: SinkHealthcheckOptions,
    attempt: Attempt<P>,
    i: int,
)
    requires
        attempt.follows(config, healthcheck),
        0 <= i < attempt.events.len(),
    ensures
        attempt.states[i].awaits(attempt.events[i]),
        config.build_step(
            healthcheck,
            attempt.states[i],
            attempt.events[i],
            attempt.states[i + 1],
            attempt.actions[i],
        ),
        attempt.states[i + 1] is Done ==> i + 1 == attempt.events.len(),
{
    if i + 1 < attempt.events.len() {
        assert(attempt.states[i + 1].awaits(attempt.events[i + 1]));
    }
}

proof fn lemma_states_are_of_the_mode<V, B, R, T, A, P: Facilities<Tls = T, Request = R, Batch = B>>(
    config: VectorConfig<V, B, R, T, A>,
    healthcheck: SinkHealthcheckOptions,
    attempt: Attempt<P>,
    i: int,
)
    requires
        attempt.follows(config, healthcheck),
        0 <= i < attempt.states.len(),
    ensures
        is_state_of(config.mode, attempt.states[i]),
    decreases i,
{
    if i > 0 {
        lemma_states_are_of_the_mode(config, healthcheck, attempt, i - 1);
        lemma_step(config, healthcheck, attempt, i - 1);
    }
}

/// A sink that pushes starts no server, and a sink that serves makes no client.
pub proof fn a_sink_is_of_one_mode<V, B, R, T, A, P: Facilities<Tls = T, Request = R, Batch = B>>(
    config: VectorConfig<V, B, R, T, A>,
    healthcheck: SinkHealthcheckOptions,
    attempt: Attempt<P>,
    i: int,
)
    requires
        attempt.follows(config, healthcheck),
        0 <= i < attempt.actions.len(),
    ensures
        config.mode == VectorMode::Push ==> !is_of_serve(attempt.actions[i]),
        config.mode == VectorMode::Serve ==> !is_of_push(attempt.actions[i]),
{
    lemma_states_are_of_the_mode(config, healthcheck, attempt, i);
    lemma_step(config, healthcheck, attempt, i);
}

/// An attempt has at most one verdict, and nothing follows it. It has one exactly when
/// nothing is waited for any more.
pub proof fn a_verdict_is_the_end<V, B, R, T, A, P: Facilities<Tls = T, Request = R, Batch = B>>(
    config: VectorConfig<V, B, R, T, A>,
    healthcheck: SinkHealthcheckOptions,
    attempt: Attempt<P>,
    i: int,
)
    requires
        attempt.follows(config, healthcheck),
        0 <= i < attempt.actions.len(),
    ensures
        is_verdict(attempt.actions[i]) <==> attempt.states[i + 1] is Done,
        is_verdict(attempt.actions[i]) ==> i == attempt.actions.len() - 1,
{
    lemma_step(config, healthcheck, attempt, i);
}

/// Where the caller fails, there is no sink, and the error is the caller's own.
pub proof fn a_failure_is_passed_on<V, B, R, T, A, P: Facilities<Tls = T, Request = R, Batch = B>>(
    config: VectorConfig<V, B, R, T, A>,
    healthcheck: SinkHealthcheckOptions,
    attempt: Attempt<P>,
    i: int,
)
    requires
        attempt.follows(config, healthcheck),
        0 <= i < attempt.actions.len(),
        attempt.events[i] is Failed,
    ensures
        attempt.actions[i] is Fail,
        attempt.actions[i]->error == SetupError::<P::Error>::Failed(
            attempt.events[i]->Failed_0,
        ),
        i == attempt.actions.len() - 1,
{
    lemma_step(config, healthcheck, attempt, i);
}

/// The action hands this trigger to the complete sink, or lets go of it.
pub open spec fn is_end_of_server<P: Facilities>(trigger: P::Trigger, action: Action<P>) -> bool {
    match action {
        Action::FinishServe { sink, .. } => sink.shutdown_trigger == trigger,
        Action::Fail { stop, .. } => stop == Some(trigger),
        _ => false,
    }
}

/// A server that has been started is not left behind: the complete sink has its trigger, or
/// the failure that takes the place of the sink lets go of it. No other failure stops a
/// server.
pub proof fn a_started_server_is_kept_or_stopped<V, B, R, T, A, P: Facilities<Tls = T, Request = R, Batch = B>>(
    config: VectorConfig<V, B, R, T, A>,
    healthcheck: SinkHealthcheckOptions,
    attempt: Attempt<P>,
    i: int,
)
    requires
        attempt.follows(config, healthcheck),
        0 <= i < attempt.actions.len(),
    ensures
        attempt.events[i] is ServerSpawned && i + 1 < attempt.actions.len() ==> is_end_of_server(
            attempt.events[i]->ServerSpawned_0,
            attempt.actions[i + 1],
        ) && i + 2 == attempt.actions.len(),
        attempt.actions[i] is Fail && attempt.actions[i]->stop is Some ==> {
            &&& i > 0
            &&& attempt.events[i - 1] is ServerSpawned
            &&& attempt.actions[i]->stop->0 == attempt.events[i - 1]->ServerSpawned_0
        },
{
    lemma_step(config, healthcheck, attempt, i);
    if i + 1 < attempt.actions.len() {
        lemma_step(config, healthcheck, attempt, i + 1);
    }
    if i > 0 {
        lemma_step(config, healthcheck, attempt, i - 1);
    }
}

/// A sink that pushes is complete after five steps, none of which failed. It sends to the
/// URI that its address stands for, through the client that was made with the TLS settings
/// of the configuration, compressed as configured, by settings that were derived from the
/// configuration. Its health check is done as the caller wants it; it asks where it was told
/// to, or else where the events go, and never compresses.
pub proof fn a_complete_push_sink<V, B, R, T, A, P: Facilities<Tls = T, Request = R, Batch = B>>(
    config: VectorConfig<V, B, R, T, A>,
    healthcheck: SinkHealthcheckOptions,
    attempt: Attempt<P>,
)
    requires
        attempt.follows(config, healthcheck),
        attempt.actions.len() > 0,
        attempt.actions.last() is FinishPush,
    ensures
        config.mode == VectorMode::Push,
        attempt.events.len() == 5,
        attempt.events[1] is TlsLoaded,
        attempt.events[2] is ClientMade,
        attempt.events[3] is RequestSettled,
        attempt.events[4] is BatchSettled,
        crate::setup::loads_tls(config.tls, attempt.states[1], attempt.actions[0]),
        attempt.actions[1] is MakeClient,
        attempt.actions[1]->MakeClient_tls == attempt.events[1]->settings,
        attempt.actions[1]->http2_only,
        attempt.actions[2] == Action::<P>::SettleRequest(&config.request),
        attempt.actions[3] == Action::<P>::SettleBatch(&config.batch),
        ({
            let sink = attempt.actions.last()->FinishPush_0;
            &&& crate::uri::resolved(config.address@, attempt.events[1]->is_tls) == Ok::<
                _,
                crate::uri::AddressError,
            >(sink.uri@)
            &&& sink.client == attempt.events[2]->ClientMade_0
            &&& sink.request_settings == attempt.events[3]->RequestSettled_0
            &&& sink.batch_settings == attempt.events[4]->BatchSettled_0
            &&& sink.compression == config.compression
            &&& sink.healthcheck == healthcheck
            &&& sink.healthcheck_uri == match healthcheck.uri {
                Some(healthcheck_uri) => healthcheck_uri,
                None => sink.uri,
            }
            &&& sink.healthcheck_compression == VectorCompression::Uncompressed
        }),
{
    let last = attempt.actions.len() - 1;
    lemma_states_are_of_the_mode(config, healthcheck, attempt, last);
    lemma_step(config, healthcheck, attempt, last);
    lemma_step(config, healthcheck, attempt, 0);
    lemma_step(config, healthcheck, attempt, 1);
    lemma_step(config, healthcheck, attempt, 2);
    lemma_step(config, healthcheck, attempt, 3);
    lemma_step(config, healthcheck, attempt, 4);
}

/// A sink is complete as soon as its batch settings are there: it pushes or serves, as its
/// mode says.
pub proof fn a_sink_gets_complete<V, B, R, T, A, P: Facilities<Tls = T, Request = R, Batch = B>>(
    config: VectorConfig<V, B, R, T, A>,
    healthcheck: SinkHealthcheckOptions,
    attempt: Attempt<P>,
)
    requires
        attempt.follows(config, healthcheck),
        attempt.events.len() > 0,
        attempt.events.last() is BatchSettled,
    ensures
        config.mode == VectorMode::Push ==> attempt.actions.last() is FinishPush,
        config.mode == VectorMode::Serve ==> attempt.actions.last() is FinishServe,
{
    let last = attempt.actions.len() - 1;
    lemma_states_are_of_the_mode(config, healthcheck, attempt, last);
    lemma_step(config, healthcheck, attempt, last);
}

/// A sink that pushes to an address that stands for no URI ends with the error of the
/// address, before a client is made.
pub proof fn an_unusable_address_ends_a_push<V, B, R, T, A, P: Facilities<Tls = T, Request = R, Batch = B>>(
    config: VectorConfig<V, B, R, T, A>,
    healthcheck: SinkHealthcheckOptions,
    attempt: Attempt<P>,
)
    requires
        attempt.follows(config, healthcheck),
        config.mode == VectorMode::Push,
        attempt.events.len() > 1,
        attempt.events[1] is TlsLoaded,
        crate::uri::resolved(config.address@, attempt.events[1]->is_tls) is Err,
    ensures
        attempt.events.len() == 2,
        attempt.actions[1] is Fail,
        attempt.actions[1]->error == SetupError::<P::Error>::Address(
            crate::uri::resolved(config.address@, attempt.events[1]->is_tls)->Err_0,
        ),
{
    lemma_step(config, healthcheck, attempt, 0);
    lemma_step(config, healthcheck, attempt, 1);
}

/// A complete sink that serves, after six steps. The service that the server offers reads
/// from the channel that the sink sends to, which nothing has been sent to yet. The server
/// listens on the address, and the sink has the batch settings that were derived and the
/// trigger of its own server. It needs no health check.
pub open spec fn is_complete_serve_attempt<P: Facilities>(
    tls: Option<P::Tls>,
    address: String,
    batch: P::Batch,
    health_name: Option<&'static str>,
    attempt: Attempt<P>,
) -> bool {
    &&& attempt.events.len() == 6
    &&& crate::setup::loads_tls(tls, attempt.states[1], attempt.actions[0])
    &&& attempt.events[1] is TlsLoaded
    &&& attempt.actions[1] is OpenService
    &&& attempt.actions[1]->max_decoding_message_size == usize::MAX
    &&& attempt.actions[1]->health_service == health_name
    &&& attempt.events[2] is ServiceOpened
    &&& attempt.actions[2] == Action::<P>::ParseAddress(&address)
    &&& attempt.events[3] is AddressParsed
    &&& attempt.events[3]->AddressParsed_0 is Some
    &&& attempt.actions[3] is SpawnServer
    &&& attempt.actions[3]->address == attempt.events[3]->AddressParsed_0->0
    &&& attempt.actions[3]->SpawnServer_tls == attempt.events[1]->settings
    &&& attempt.actions[3]->routes == attempt.events[2]->ServiceOpened_0
    &&& attempt.events[4] is ServerSpawned
    &&& attempt.actions[4] == Action::<P>::SettleBatch(&batch)
    &&& attempt.events[5] is BatchSettled
    &&& attempt.actions[5] is FinishServe
    &&& attempt.actions[5]->sink.emitter.channel() == attempt.actions[1]->service.emitter
    &&& attempt.actions[5]->sink.emitter.capacity() == crate::setup::EMITTER_CAPACITY
    &&& attempt.actions[5]->sink.emitter.log().len() == 0
    &&& attempt.actions[5]->sink.batch_settings == attempt.events[5]->BatchSettled_0
    &&& attempt.actions[5]->sink.shutdown_trigger == attempt.events[4]->ServerSpawned_0
    &&& !attempt.actions[5]->healthcheck.enabled
}

/// A configuration that serves is complete after six steps, in this order and with these
/// pieces, however the caller wants its sinks to be checked.
pub proof fn a_complete_serve_sink<V, B, R, T, A, P: Facilities<Tls = T, Request = R, Batch = B>>(
    config: VectorConfig<V, B, R, T, A>,
    healthcheck: SinkHealthcheckOptions,
    attempt: Attempt<P>,
)
    requires
        attempt.follows(config, healthcheck),
        attempt.actions.len() > 0,
        attempt.actions.last() is FinishServe,
    ensures
        config.mode == VectorMode::Serve,
        is_complete_serve_attempt(config.tls, config.address, config.batch, None, attempt),
{
    let last = attempt.actions.len() - 1;
    lemma_states_are_of_the_mode(config, healthcheck, attempt, last);
    lemma_step(config, healthcheck, attempt, last);
    lemma_step(config, healthcheck, attempt, 0);
    lemma_step(config, healthcheck, attempt, 1);
    lemma_step(config, healthcheck, attempt, 2);
    lemma_step(config, healthcheck, attempt, 3);
    lemma_step(config, healthcheck, attempt, 4);
    lemma_step(config, healthcheck, attempt, 5);
}

/// The health check of a sink that serves succeeds without a request, whatever it is told.
pub proof fn a_complete_serve_sink_is_healthy<P: Facilities, S>(
    tls: Option<P::Tls>,
    address: String,
    batch: P::Batch,
    health_name: Option<&'static str>,
    attempt: Attempt<P>,
    event: HealthEvent<S>,
)
    requires
        is_complete_serve_attempt(tls, address, batch, health_name, attempt),
    ensures
        crate::grpc::health_step(attempt.actions[5]->healthcheck.enabled, event)
            == HealthAction::<S>::Done(Ok(())),
{
}

proof fn lemma_serve_step<P: Facilities>(
    tls: Option<P::Tls>,
    address: Option<String>,
    batch: P::Batch,
    attempt: Attempt<P>,
    i: int,
)
    requires
        attempt.serves(tls, address, batch),
        0 <= i < attempt.events.len(),
    ensures
        attempt.states[i].awaits(attempt.events[i]),
        crate::serve::config_step(
            tls,
            address,
            batch,
            attempt.states[i],
            attempt.events[i],
            attempt.states[i + 1],
            attempt.actions[i],
        ),
        attempt.states[i + 1] is Done ==> i + 1 == attempt.events.len(),
{
    if i + 1 < attempt.events.len() {
        assert(attempt.states[i + 1].awaits(attempt.events[i + 1]));
    }
}

/// A sink that serves on the address of its configuration is complete exactly when its
/// batch settings are there. It has then gone through six steps, in this order and with
/// these pieces, and its health is reported under its name.
pub proof fn a_sink_that_serves_on_an_address<P: Facilities>(
    tls: Option<P::Tls>,
    address: Option<String>,
    batch: P::Batch,
    attempt: Attempt<P>,
)
    requires
        attempt.serves(tls, address, batch),
        attempt.events.len() > 0,
    ensures
        attempt.actions.last() is FinishServe <==> attempt.events.last() is BatchSettled,
        attempt.actions.last() is FinishServe ==> address is Some && is_complete_serve_attempt(
            tls,
            address->0,
            batch,
            Some(crate::serve::health_service()),
            attempt,
        ),
{
    let last = attempt.actions.len() - 1;
    lemma_serve_step(tls, address, batch, attempt, last);
    lemma_serve_step(tls, address, batch, attempt, 0);
    if last >= 1 {
        lemma_serve_step(tls, address, batch, attempt, 1);
    }
    if last >= 2 {
        lemma_serve_step(tls, address, batch, attempt, 2);
    }
    if last >= 3 {
        lemma_serve_step(tls, address, batch, attempt, 3);
    }
    if last >= 4 {
        lemma_serve_step(tls, address, batch, attempt, 4);
    }
    if last >= 5 {
        lemma_serve_step(tls, address, batch, attempt, 5);
    }
}

/// No server starts where there is no address to serve on, or where the address is no
/// socket address: the attempt ends with an error that says which of the two it is. A
/// server that has been started is stopped again where the attempt fails.
pub proof fn no_server_without_an_address<P: Facilities>(
    tls: Option<P::Tls>,
    address: Option<String>,
    batch: P::Batch,
    attempt: Attempt<P>,
    i: int,
)
    requires
        attempt.serves(tls, address, batch),
        0 <= i < attempt.events.len(),
    ensures
        attempt.actions[i] is SpawnServer ==> {
            &&& address is Some
            &&& attempt.events[i] is AddressParsed
            &&& attempt.events[i]->AddressParsed_0 is Some
        },
        address is None && attempt.events[i] is ServiceOpened ==> {
            &&& attempt.actions[i] is Fail
            &&& attempt.actions[i]->error == SetupError::<P::Error>::AddressMissing
        },
        attempt.events[i] is AddressParsed && attempt.events[i]->AddressParsed_0 is None ==> {
            &&& attempt.actions[i] is Fail
            &&& attempt.actions[i]->error == SetupError::<P::Error>::AddressInvalid
        },
        attempt.events[i] is ServerSpawned && i + 1 < attempt.events.len()
            ==> is_end_of_server(attempt.events[i]->ServerSpawned_0, attempt.actions[i + 1]),
        attempt.actions[i] is Fail ==> i == attempt.events.len() - 1,
{
    lemma_serve_step(tls, address, batch, attempt, i);
    if i > 0 {
        lemma_serve_step(tls, address, batch, attempt, i - 1);
    }
    if i + 1 < attempt.events.len() {
        lemma_serve_step(tls, address, batch, attempt, i + 1);
    }
}

/// The states differ at most in the channel of the sink.
pub open spec fn agree_but_for_channel<P: Facilities>(state: State<P>, other: State<P>) -> bool {
    match (state, other) {
        (State::Service(_, tls), State::Service(_, t)) => tls == t,
        (State::Address(_, tls, routes), State::Address(_, t, r)) => tls == t && routes == r,
        (State::Server(_), State::Server(_)) => true,
        (State::ServeBatch(_, trigger), State::ServeBatch(_, t)) => trigger == t,
        _ => state == other,
    }
}

/// The actions differ at most in the channel that the service reads from and the sink sends
/// to.
pub open spec fn say_the_same_but_for_channel<P: Facilities>(
    action: Action<P>,
    other: Action<P>,
) -> bool {
    match (action, other) {
        (
            Action::OpenService { max_decoding_message_size, health_service, .. },
            Action::OpenService { max_decoding_message_size: m, health_service: h, .. },
        ) => max_decoding_message_size == m && health_service == h,
        (
            Action::FinishServe { sink, healthcheck },
            Action::FinishServe { sink: s, healthcheck: h },
        ) => {
            &&& sink.batch_settings == s.batch_settings
            &&& sink.shutdown_trigger == s.shutdown_trigger
            &&& healthcheck == h
        },
        _ => action == other,
    }
}

/// Where the TLS settings, the address and the batch settings of two configurations agree
/// and the caller does the same, it is told the same, and the same comes out, but for the
/// channel, which is opened anew: nothing else of a configuration matters to a sink that
/// serves on its address.
pub proof fn only_tls_address_and_batch_matter<P: Facilities>(
    tls: Option<P::Tls>,
    address: Option<String>,
    batch: P::Batch,
    attempt: Attempt<P>,
    other: Attempt<P>,
    i: int,
)
    requires
        attempt.serves(tls, address, batch),
        other.serves(tls, address, batch),
        attempt.events == other.events,
        0 <= i <= attempt.events.len(),
    ensures
        agree_but_for_channel(attempt.states[i], other.states[i]),
        i > 0 ==> say_the_same_but_for_channel(attempt.actions[i - 1], other.actions[i - 1]),
    decreases i,
{
    if i > 0 {
        only_tls_address_and_batch_matter(tls, address, batch, attempt, other, i - 1);
        lemma_serve_step(tls, address, batch, attempt, i - 1);
        lemma_serve_step(tls, address, batch, other, i - 1);
    }
}

/// A channel of this capacity loses nothing for a reader that has never been further behind
/// than this many batches.
pub open spec fn channel_keeps<T, L>(
    capacity: usize,
    behind: nat,
    received: Seq<Result<Vec<T>, L>>,
) -> bool {
    behind <= capacity ==> forall|i: int| 0 <= i < received.len() ==> received[i] is Ok
}

/// Who has subscribed to the service of a complete sink, and is never more than ten thousand
/// batches behind, is answered with every batch that it has received, one for one and in
/// the order in which they were sent.
pub proof fn a_reader_within_the_capacity_loses_nothing<P: Facilities, L>(
    tls: Option<P::Tls>,
    address: String,
    batch: P::Batch,
    health_name: Option<&'static str>,
    attempt: Attempt<P>,
    behind: nat,
    sent: Seq<Vec<P::Event>>,
    subscription: Subscription<Vec<P::Event>>,
    received: Seq<Result<Vec<P::Event>, L>>,
)
    requires
        is_complete_serve_attempt(tls, address, batch, health_name, attempt),
        channel_keeps(attempt.actions[5]->sink.emitter.capacity(), behind, received),
        subscription.to() == attempt.actions[1]->service.emitter,
        crate::laws::brings(
            attempt.actions[5]->sink.emitter.channel(),
            sent,
            subscription,
            received,
        ),
        behind <= 10000,
    ensures
        received.len() <= sent.len(),
        crate::laws::pulled(received) == sent.take(received.len() as int),
{
    crate::laws::a_subscription_sees_all_up_to_a_loss(received);
    crate::laws::a_subscription_sees_what_was_sent(sent, received);
}

/// A call of `build` is a step of the configuration that it is called on.
pub proof fn a_call_of_build_is_a_step<V, B, R, T, A, P: Facilities<Tls = T, Request = R, Batch = B>>(
    config: VectorConfig<V, B, R, T, A>,
    healthcheck: SinkHealthcheckOptions,
    state: State<P>,
    event: Event<P>,
    next: State<P>,
    action: Action<P>,
)
    requires
        call_ensures(
            VectorConfig::<V, B, R, T, A>::build::<P>,
            (&config, &healthcheck, state, event),
            (next, action),
        ),
    ensures
        config.build_step(healthcheck, state, event, next, action),
{
}

/// A call of `config_to_serve_sink` is a step of a sink that serves on its address.
pub proof fn a_call_of_config_to_serve_sink_is_a_step<P: Facilities>(
    tls: Option<P::Tls>,
    address: Option<String>,
    batch: P::Batch,
    state: State<P>,
    event: Event<P>,
    next: State<P>,
    action: Action<P>,
)
    requires
        call_ensures(
            crate::serve::config_to_serve_sink::<P>,
            (&tls, &address, &batch, state, event),
            (next, action),
        ),
    ensures
        crate::serve::config_step(tls, address, batch, state, event, next, action),
{
}

/// The event is the caller's report on this action: that it is done, or that it failed where
/// it can fail.
pub open spec fn reports_on<P: Facilities>(event: Event<P>, action: Action<P>) -> bool {
    match action {
        Action::LoadTls { .. } => event is TlsLoaded || event is Failed,
        Action::MakeClient { .. } => event is ClientMade || event is Failed,
        Action::SettleRequest(_) => event is RequestSettled,
        Action::OpenService { .. } => event is ServiceOpened,
        Action::ParseAddress(_) => event is AddressParsed,
        Action::SpawnServer { .. } => event is ServerSpawned,
        Action::SettleBatch(_) => event is BatchSettled || event is Failed,
        Action::FinishPush(_) => false,
        Action::FinishServe { .. } => false,
        Action::Fail { .. } => false,
    }
}

/// The caller can always go on: from the start, and from any action with any report on it,
/// whatever it carries. A sink that serves takes only an address that could be read. Nothing
/// but a report on the last action is waited for.
pub proof fn a_build_goes_on_with_any_report<V, B, R, T, A, P: Facilities<Tls = T, Request = R, Batch = B>>(
    config: VectorConfig<V, B, R, T, A>,
    healthcheck: SinkHealthcheckOptions,
    attempt: Attempt<P>,
    i: int,
    event: Event<P>,
)
    requires
        attempt.follows(config, healthcheck),
        0 <= i < attempt.actions.len(),
    ensures
        call_requires(
            VectorConfig::<V, B, R, T, A>::build::<P>,
            (&config, &healthcheck, State::Start, Event::Start),
        ),
        attempt.states[i + 1].awaits(event) <==> reports_on(event, attempt.actions[i]),
        reports_on(event, attempt.actions[i]) && !is_unread_address(event) ==> call_requires(
            VectorConfig::<V, B, R, T, A>::build::<P>,
            (&config, &healthcheck, attempt.states[i + 1], event),
        ),
{
    lemma_states_are_of_the_mode(config, healthcheck, attempt, i);
    lemma_step(config, healthcheck, attempt, i);
}

/// The same holds of a sink that serves on its address, which also takes an address that could
/// not be read.
pub proof fn a_serving_sink_goes_on_with_any_report<P: Facilities>(
    tls: Option<P::Tls>,
    address: Option<String>,
    batch: P::Batch,
    attempt: Attempt<P>,
    i: int,
    event: Event<P>,
)
    requires
        attempt.serves(tls, address, batch),
        0 <= i < attempt.actions.len(),
    ensures
        call_requires(
            crate::serve::config_to_serve_sink::<P>,
            (&tls, &address, &batch, State::Start, Event::Start),
        ),
        attempt.states[i + 1].awaits(event) <==> reports_on(event, attempt.actions[i]),
        reports_on(event, attempt.actions[i]) ==> call_requires(
            crate::serve::config_to_serve_sink::<P>,
            (&tls, &address, &batch, attempt.states[i + 1], event),
        ),
{
    lemma_serve_states(tls, address, batch, attempt, i);
    lemma_serve_step(tls, address, batch, attempt, i);
}

/// The caller could not read the socket address.
pub open spec fn is_unread_address<P: Facilities>(event: Event<P>) -> bool {
    event is AddressParsed && event->AddressParsed_0 is None
}

/// The first action loads the TLS settings of the configuration, as those of a client.
pub open spec fn begins_with_tls<P: Facilities>(tls: Option<P::Tls>, action: Action<P>) -> bool {
    &&& action matches Action::LoadTls { settings, for_server }
    &&& !for_server
    &&& tls is Some <==> settings is Some
    &&& tls is Some ==> *settings->0 == tls->0
}

/// A build fails if, and only if, the caller fails, or the sink pushes to an address that
/// names no instance, or the sink serves on an address that is no socket address. The error
/// says which it is: nothing else of a configuration makes a build fail.
pub proof fn a_build_fails_only_for_a_reason<V, B, R, T, A, P: Facilities<Tls = T, Request = R, Batch = B>>(
    config: VectorConfig<V, B, R, T, A>,
    healthcheck: SinkHealthcheckOptions,
    attempt: Attempt<P>,
    i: int,
)
    requires
        attempt.follows(config, healthcheck),
        0 <= i < attempt.actions.len(),
    ensures
        attempt.actions[i] is Fail <==> {
            ||| attempt.events[i] is Failed
            ||| attempt.events[i] is TlsLoaded && config.mode == VectorMode::Push
                && !crate::laws::names_an_instance(config.address@)
            ||| is_unread_address(attempt.events[i])
        },
        attempt.events[i] is Failed ==> attempt.actions[i]->error == SetupError::<P::Error>::Failed(
            attempt.events[i]->Failed_0,
        ),
        attempt.actions[i] is Fail && attempt.events[i] is TlsLoaded ==> (
        match crate::uri::parsed_uri(config.address@) {
            Err(refusal) => attempt.actions[i]->error == SetupError::<P::Error>::Address(
                AddressError::InvalidUri(refusal),
            ),
            Ok(_) => attempt.actions[i]->error == SetupError::<P::Error>::Address(
                AddressError::InvalidUriParts(InvalidUriParts::AuthorityMissing),
            ),
        }),
        is_unread_address(attempt.events[i]) ==> attempt.actions[i]->error
            == SetupError::<P::Error>::AddressInvalid,
{
    lemma_states_are_of_the_mode(config, healthcheck, attempt, i);
    lemma_step(config, healthcheck, attempt, i);
}

/// A push sink whose address names an instance is put together in five steps, whatever its
/// compression, its TLS, request and batch settings and its acknowledgements are. As long as
/// the caller does not fail, the actions are, in this order: load the TLS settings, make a
/// client with them, settle the request settings, settle the batch settings, and finish.
pub proof fn a_push_sink_makes_progress<V, B, R, T, A, P: Facilities<Tls = T, Request = R, Batch = B>>(
    config: VectorConfig<V, B, R, T, A>,
    healthcheck: SinkHealthcheckOptions,
    attempt: Attempt<P>,
    i: int,
)
    requires
        attempt.follows(config, healthcheck),
        config.mode == VectorMode::Push,
        crate::laws::names_an_instance(config.address@),
        0 <= i < attempt.actions.len(),
        !(attempt.events[i] is Failed),
    ensures
        i < 5,
        !(attempt.actions[i] is Fail),
        i == 0 ==> attempt.events[0] is Start && begins_with_tls(config.tls, attempt.actions[0]),
        i == 1 ==> {
            &&& attempt.events[1] is TlsLoaded
            &&& attempt.actions[1] is MakeClient
            &&& attempt.actions[1]->MakeClient_tls == attempt.events[1]->settings
            &&& attempt.actions[1]->http2_only
        },
        i == 2 ==> {
            &&& attempt.events[2] is ClientMade
            &&& attempt.actions[2] is SettleRequest
            &&& *attempt.actions[2]->SettleRequest_0 == config.request
        },
        i == 3 ==> {
            &&& attempt.events[3] is RequestSettled
            &&& attempt.actions[3] is SettleBatch
            &&& *attempt.actions[3]->SettleBatch_0 == config.batch
        },
        i == 4 ==> {
            &&& attempt.events[4] is BatchSettled
            &&& attempt.actions[4] is FinishPush
            &&& is_push_sink_of(config, healthcheck, attempt, attempt.actions[4]->FinishPush_0)
        },
{
    lemma_step(config, healthcheck, attempt, i);
    lemma_step(config, healthcheck, attempt, 0);
    if i >= 1 {
        lemma_step(config, healthcheck, attempt, 1);
    }
    if i >= 2 {
        lemma_step(config, healthcheck, attempt, 2);
    }
    if i >= 3 {
        lemma_step(config, healthcheck, attempt, 3);
    }
    if i >= 4 {
        lemma_step(config, healthcheck, attempt, 4);
    }
}

/// The sink sends to what its address stands for, compressed as configured, through the client
/// and by the settings that the caller has made. Its health check is the caller's; it asks
/// where the caller wants it to, or else where the events go, and never compresses.
pub open spec fn is_push_sink_of<V, B, R, T, A, P: Facilities<Tls = T, Request = R, Batch = B>>(
    config: VectorConfig<V, B, R, T, A>,
    healthcheck: SinkHealthcheckOptions,
    attempt: Attempt<P>,
    sink: PushSink<P>,
) -> bool {
    &&& crate::laws::stands_for(config.address@, attempt.events[1]->is_tls, sink.uri@)
    &&& sink.compression == config.compression
    &&& sink.client == attempt.events[2]->ClientMade_0
    &&& sink.request_settings == attempt.events[3]->RequestSettled_0
    &&& sink.batch_settings == attempt.events[4]->BatchSettled_0
    &&& sink.healthcheck.enabled == healthcheck.enabled
    &&& sink.healthcheck.uri == healthcheck.uri
    &&& healthcheck.uri is Some ==> sink.healthcheck_uri == healthcheck.uri->0
    &&& healthcheck.uri is None ==> sink.healthcheck_uri == sink.uri
    &&& sink.healthcheck_compression == VectorCompression::Uncompressed
}

/// The action of a sink that serves, by how many steps came before. Every sink that serves
/// opens its service for messages of any size, reads its address, starts its server with the
/// pieces that the caller has made, settles its batch settings, and finishes: with the channel
/// that its service reads from, which holds ten thousand batches and has not been sent to, and
/// with the trigger of its own server.
pub open spec fn is_serve_action<P: Facilities>(
    tls: Option<P::Tls>,
    address: Option<String>,
    batch: P::Batch,
    health_name: Option<&'static str>,
    attempt: Attempt<P>,
    i: int,
) -> bool {
    let event = attempt.events[i];
    let action = attempt.actions[i];
    &&& i < 6
    &&& i == 0 ==> event is Start && begins_with_tls(tls, action)
    &&& i == 1 ==> {
        &&& event is TlsLoaded
        &&& action is OpenService
        &&& action->max_decoding_message_size == usize::MAX
        &&& action->health_service == health_name
    }
    &&& i == 2 ==> {
        &&& event is ServiceOpened
        &&& address is Some ==> action is ParseAddress && *action->ParseAddress_0 == address->0
    }
    &&& i == 3 ==> {
        &&& event is AddressParsed
        &&& event->AddressParsed_0 is Some ==> {
            &&& action is SpawnServer
            &&& action->address == event->AddressParsed_0->0
            &&& action->SpawnServer_tls == attempt.events[1]->settings
            &&& action->routes == attempt.events[2]->ServiceOpened_0
        }
    }
    &&& i == 4 ==> {
        &&& event is ServerSpawned
        &&& action is SettleBatch
        &&& *action->SettleBatch_0 == batch
    }
    &&& i == 5 ==> {
        &&& event is BatchSettled
        &&& action is FinishServe
        &&& action->sink.emitter.channel() == attempt.actions[1]->service.emitter
        &&& action->sink.emitter.capacity() == 10000
        &&& action->sink.emitter.log().len() == 0
        &&& action->sink.batch_settings == event->BatchSettled_0
        &&& action->sink.shutdown_trigger == attempt.events[4]->ServerSpawned_0
        &&& !action->FinishServe_healthcheck.enabled
        &&& action->FinishServe_healthcheck.uri is None
    }
}

/// A configuration that serves is put together in six steps, whatever else it says and
/// however the caller wants its sinks to be checked, as long as the caller does not fail.
pub proof fn a_serve_config_makes_progress<V, B, R, T, A, P: Facilities<Tls = T, Request = R, Batch = B>>(
    config: VectorConfig<V, B, R, T, A>,
    healthcheck: SinkHealthcheckOptions,
    attempt: Attempt<P>,
    i: int,
)
    requires
        attempt.follows(config, healthcheck),
        config.mode == VectorMode::Serve,
        0 <= i < attempt.actions.len(),
        !(attempt.events[i] is Failed),
    ensures
        is_serve_action(config.tls, Some(config.address), config.batch, None, attempt, i),
        attempt.actions[i] is Fail <==> is_unread_address(attempt.events[i]),
{
    lemma_step(config, healthcheck, attempt, i);
    lemma_step(config, healthcheck, attempt, 0);
    if i >= 1 {
        lemma_step(config, healthcheck, attempt, 1);
    }
    if i >= 2 {
        lemma_step(config, healthcheck, attempt, 2);
    }
    if i >= 3 {
        lemma_step(config, healthcheck, attempt, 3);
    }
    if i >= 4 {
        lemma_step(config, healthcheck, attempt, 4);
    }
    if i >= 5 {
        lemma_step(config, healthcheck, attempt, 5);
    }
}

/// A sink that serves on its address is put together in six steps, with TLS settings or
/// without, as long as the caller does not fail. Its health is reported as that of the service
/// `vector.Vector`.
pub proof fn a_serving_sink_makes_progress<P: Facilities>(
    tls: Option<P::Tls>,
    address: Option<String>,
    batch: P::Batch,
    attempt: Attempt<P>,
    i: int,
)
    requires
        attempt.serves(tls, address, batch),
        0 <= i < attempt.actions.len(),
        !(attempt.events[i] is Failed),
    ensures
        is_serve_action(tls, address, batch, Some("vector.Vector"), attempt, i),
{
    lemma_serve_step(tls, address, batch, attempt, i);
    lemma_serve_step(tls, address, batch, attempt, 0);
    if i >= 1 {
        lemma_serve_step(tls, address, batch, attempt, 1);
    }
    if i >= 2 {
        lemma_serve_step(tls, address, batch, attempt, 2);
    }
    if i >= 3 {
        lemma_serve_step(tls, address, batch, attempt, 3);
    }
    if i >= 4 {
        lemma_serve_step(tls, address, batch, attempt, 4);
    }
    if i >= 5 {
        lemma_serve_step(tls, address, batch, attempt, 5);
    }
}

/// A sink that serves on its address fails if, and only if, the caller fails, there is no
/// address, or the address is no socket address. The error says which it is, and never that
/// there is no address where there is one. Only a server that has been started is stopped.
pub proof fn a_serving_sink_fails_only_for_a_reason<P: Facilities>(
    tls: Option<P::Tls>,
    address: Option<String>,
    batch: P::Batch,
    attempt: Attempt<P>,
    i: int,
)
    requires
        attempt.serves(tls, address, batch),
        0 <= i < attempt.actions.len(),
    ensures
        attempt.actions[i] is Fail <==> {
            ||| attempt.events[i] is Failed
            ||| attempt.events[i] is ServiceOpened && address is None
            ||| is_unread_address(attempt.events[i])
        },
        attempt.actions[i] is Fail ==> {
            &&& attempt.events[i] is Failed ==> attempt.actions[i]->error == SetupError::<
                P::Error,
            >::Failed(attempt.events[i]->Failed_0)
            &&& attempt.events[i] is ServiceOpened ==> attempt.actions[i]->error == SetupError::<
                P::Error,
            >::AddressMissing
            &&& is_unread_address(attempt.events[i]) ==> attempt.actions[i]->error
                == SetupError::<P::Error>::AddressInvalid
            &&& attempt.actions[i]->error is AddressMissing ==> address is None
            &&& attempt.actions[i]->stop is Some ==> {
                &&& i > 0
                &&& attempt.events[i - 1] is ServerSpawned
                &&& attempt.actions[i]->stop->0 == attempt.events[i - 1]->ServerSpawned_0
            }
        },
{
    lemma_serve_states(tls, address, batch, attempt, i);
    lemma_serve_step(tls, address, batch, attempt, i);
    if i > 0 {
        lemma_serve_step(tls, address, batch, attempt, i - 1);
    }
}

/// The configuration of a URI gives a sink that pushes, and never opens a server, whatever the
/// URI is. If the URI was read from a text and has a scheme, then the sink sends to that very
/// URI. Only the text of the URI must not have grown too long to be read.
pub proof fn a_config_of_a_uri_connects_to_it<V, B: Default, R: Default, T, A: Default, P: Facilities<Tls = T, Request = R, Batch = B>>(
    text: Seq<char>,
    uri: Uri,
    config: VectorConfig<V, B, R, T, A>,
    healthcheck: SinkHealthcheckOptions,
    attempt: Attempt<P>,
    i: int,
)
    requires
        call_ensures(VectorConfig::<V, B, R, T, A>::from_address, (uri,), config),
        attempt.follows(config, healthcheck),
        0 <= i < attempt.actions.len(),
    ensures
        !is_of_serve(attempt.actions[i]),
        ({
            &&& crate::uri::is_reading(text, uri@)
            &&& uri@.scheme is Some
            &&& text.len() < crate::uri::MAX_URI_LEN || uri@.text().len()
                <= crate::uri::MAX_URI_LEN
        }) ==> {
            &&& attempt.actions[i] is Fail <==> attempt.events[i] is Failed
            &&& attempt.events[i] is BatchSettled ==> attempt.actions[i] is FinishPush
                && attempt.actions[i]->FinishPush_0.uri@ == uri@
        },
{
    a_sink_is_of_one_mode(config, healthcheck, attempt, i);
    a_build_fails_only_for_a_reason(config, healthcheck, attempt, i);
    lemma_states_are_of_the_mode(config, healthcheck, attempt, i);
    lemma_step(config, healthcheck, attempt, i);
    if crate::uri::is_reading(text, uri@) && uri@.scheme is Some && (text.len()
        < crate::uri::MAX_URI_LEN || uri@.text().len() <= crate::uri::MAX_URI_LEN) {
        if attempt.events[i] is BatchSettled {
            a_push_sink_makes_progress(config, healthcheck, attempt, i);
        }
    }
}

proof fn lemma_serve_states<P: Facilities>(
    tls: Option<P::Tls>,
    address: Option<String>,
    batch: P::Batch,
    attempt: Attempt<P>,
    i: int,
)
    requires
        attempt.serves(tls, address, batch),
        0 <= i < attempt.states.len(),
    ensures
        is_state_of(VectorMode::Serve, attempt.states[i]),
    decreases i,
{
    if i > 0 {
        lemma_serve_states(tls, address, batch, attempt, i - 1);
        lemma_serve_step(tls, address, batch, attempt, i - 1);
    }
}

} // verus!

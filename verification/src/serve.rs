//! A sink that serves: it hands its batches to whoever has subscribed.

use vstd::prelude::*;

use tokio::sync::broadcast::Sender;

use crate::emitter::{subscribe, Emitter, Subscription};
use crate::grpc::{Code, ServingStatus, Status};
use crate::setup::{
    next_serve_step, open_service, Action, Event, Facilities, SetupError, State,
};

verus! {

/// What a service does with the next item of a subscription.
#[derive(Debug)]
pub enum PullAction<T, L> {
    /// Answer with these events, and go on.
    Respond(Vec<T>),
    /// End the answer: the channel is closed, or the reader missed some batches.
    End(Option<L>),
}

/// The refusal of events that someone pushes to a sink that serves.
pub open spec fn is_push_refusal(refusal: Status) -> bool {
    &&& refusal.code == Code::Unimplemented
    &&& refusal.message@ == "Sink vector does not support PushEventsRequest"@
}

/// The state that a sink that serves reports of itself.
pub open spec fn reported_status() -> ServingStatus {
    ServingStatus::Serving
}

/// The service that a sink offers to downstream instances.
#[derive(Debug)]
#[verifier::reject_recursive_types(T)]
pub struct ServeService<T> {
    /// The channel that the batches of the sink come through, to subscribe to.
    pub emitter: Sender<Vec<T>>,
}

impl<T> Clone for ServeService<T> {
    fn clone(&self) -> (copy: ServeService<T>)
        ensures
            copy == *self,
    {
        ServeService { emitter: self.emitter.clone() }
    }
}

impl<T> ServeService<T> {
    /// Events are not accepted: a sink has none to take in.
    pub fn push_events(&self) -> (r: Result<(), Status>)
        ensures
            r matches Err(refusal) && is_push_refusal(refusal),
    {
        Err(
            Status {
                code: Code::Unimplemented,
                message: "Sink vector does not support PushEventsRequest".to_owned(),
            },
        )
    }

    /// The service always reports that it serves.
    pub fn health_check(&self) -> (r: Result<ServingStatus, Status>)
        ensures
            r == Ok::<ServingStatus, Status>(reported_status()),
    {
        Ok(ServingStatus::Serving)
    }

    /// A request for events is a subscription, from then on, to the batches of the sink.
    pub fn pull_events(&self) -> (subscription: Subscription<Vec<T>>)
        ensures
            subscription.to() == self.emitter,
    {
        subscribe(&self.emitter)
    }

    /// Answers a subscription with one item after the other, until there is no more or
    /// the reader has missed some.
    pub fn pull_next<L>(next: Option<Result<Vec<T>, L>>) -> (action: PullAction<T, L>)
        ensures
            action == pull_step(next),
    {
        match next {
            Some(Ok(events)) => PullAction::Respond(events),
            Some(Err(lag)) => PullAction::End(Some(lag)),
            None => PullAction::End(None),
        }
    }
}

/// What becomes of the next item of a subscription.
pub open spec fn pull_step<T, L>(next: Option<Result<Vec<T>, L>>) -> PullAction<T, L> {
    match next {
        Some(Ok(events)) => PullAction::Respond(events),
        Some(Err(lag)) => PullAction::End(Some(lag)),
        None => PullAction::End(None),
    }
}

/// Events on their way out, with the finalizers that report what became of them.
#[derive(Debug)]
pub struct EventBatch<F, T> {
    pub finalizers: Vec<F>,
    pub events: Vec<T>,
}

/// The batch holds nothing.
pub open spec fn is_empty_batch<F, T>(batch: EventBatch<F, T>) -> bool {
    batch.finalizers@ == Seq::<F>::empty() && batch.events@ == Seq::<T>::empty()
}

/// One batch is another with one more event at its end, and with the finalizers of that
/// event at the end of its finalizers.
pub open spec fn pushed<F, T>(
    before: EventBatch<F, T>,
    finalizers: Seq<F>,
    event: T,
    after: EventBatch<F, T>,
) -> bool {
    &&& after.finalizers@ == before.finalizers@ + finalizers
    &&& after.events@ == before.events@.push(event)
}

impl<F, T> Default for EventBatch<F, T> {
    /// The batch of no events.
    fn default() -> (batch: EventBatch<F, T>)
        ensures
            is_empty_batch(batch),
    {
        EventBatch { finalizers: Vec::new(), events: Vec::new() }
    }
}

impl<F, T> EventBatch<F, T> {
    /// Adds an event, and the finalizers taken from it.
    pub fn push(&mut self, finalizers: Vec<F>, event: T)
        ensures
            pushed(*old(self), finalizers@, event, *final(self)),
    {
        let mut finalizers = finalizers;
        self.finalizers.append(&mut finalizers);
        self.events.push(event);
    }
}

/// What becomes of a batch, or of the sink after the last one.
#[derive(Debug)]
pub enum RunAction<F, T> {
    /// The batch went out: let go of its finalizers.
    Release(Vec<F>),
    /// Nobody was there to take the batch: report its events as rejected.
    Reject(EventBatch<F, T>),
    /// There are no more batches: shut the server down, and end.
    Shutdown,
}

/// What becomes of a batch of which these finalizers are left, after the attempt to
/// send its events.
pub open spec fn settled<F, T>(finalizers: Vec<F>, sent: Result<usize, Vec<T>>) -> RunAction<F, T> {
    match sent {
        Ok(_) => RunAction::Release(finalizers),
        Err(events) => RunAction::Reject(EventBatch { finalizers, events }),
    }
}

/// Decides what becomes of a batch, after the attempt to send its events.
pub fn settle<F, T>(finalizers: Vec<F>, sent: Result<usize, Vec<T>>) -> (action: RunAction<F, T>)
    ensures
        action == settled(finalizers, sent),
{
    match sent {
        Ok(_) => RunAction::Release(finalizers),
        Err(events) => RunAction::Reject(EventBatch { finalizers, events }),
    }
}

/// A sink that hands its batches to whoever has subscribed.
#[verifier::reject_recursive_types(T)]
pub struct ServeSink<T, B, C> {
    /// Where the batches go.
    pub emitter: Emitter<Vec<T>>,
    /// When a batch is full.
    pub batch_settings: B,
    /// What stops the server.
    pub shutdown_trigger: C,
}

/// What becomes of the next batch, if there is one: its events are sent once, all of them
/// and in their order, and the outcome of that settles it. Nothing else is sent, and
/// nothing else of the sink changes.
pub open spec fn run_step<F, T, B, C>(
    before: ServeSink<T, B, C>,
    next: Option<EventBatch<F, T>>,
    after: ServeSink<T, B, C>,
    action: RunAction<F, T>,
) -> bool {
    &&& after.emitter.channel() == before.emitter.channel()
    &&& after.emitter.capacity() == before.emitter.capacity()
    &&& after.batch_settings == before.batch_settings
    &&& after.shutdown_trigger == before.shutdown_trigger
    &&& match next {
        Some(batch) => {
            let sent = after.emitter.log().last().1;
            &&& after.emitter.log() == before.emitter.log().push((batch.events, sent))
            &&& action == settled(batch.finalizers, sent)
            &&& sent matches Ok(receivers) ==> receivers > 0
            &&& sent is Err ==> action == RunAction::Reject(batch)
        },
        None => {
            &&& after.emitter.log() == before.emitter.log()
            &&& action == RunAction::<F, T>::Shutdown
        },
    }
}

impl<T, B, C> ServeSink<T, B, C> {
    /// Sends the next batch, if there is one, and says what becomes of it.
    ///
    /// A batch that nobody takes comes back whole.
    pub fn run<F>(&mut self, next: Option<EventBatch<F, T>>) -> (action: RunAction<F, T>)
        ensures
            run_step(*old(self), next, *final(self), action),
    {
        match next {
            Some(batch) => {
                let sent = self.emitter.emit(batch.events);
                settle(batch.finalizers, sent)
            },
            None => RunAction::Shutdown,
        }
    }
}

/// The service under which the health of a sink that serves is reported.
pub open spec fn health_service() -> &'static str {
    "vector.Vector"
}

/// The step of a sink that serves from a configuration with these TLS settings, this
/// address and these batch settings.
pub open spec fn config_step<P: Facilities>(
    tls: Option<P::Tls>,
    address: Option<String>,
    batch: P::Batch,
    state: State<P>,
    event: Event<P>,
    next: State<P>,
    action: Action<P>,
) -> bool {
    match (state, event) {
        (State::Start, _) => crate::setup::loads_tls(tls, next, action),
        (State::Tls, Event::Failed(error)) => crate::setup::fails(
            SetupError::Failed(error),
            None,
            next,
            action,
        ),
        (State::Tls, Event::TlsLoaded { settings, .. }) => crate::setup::opens_service(
            settings,
            Some(health_service()),
            next,
            action,
        ),
        _ => crate::setup::serve_step(
            address,
            batch,
            state,
            event,
            next,
            action,
        ),
    }
}

/// Puts a sink together that serves on the address of its configuration.
pub fn config_to_serve_sink<'a, P: Facilities>(
    tls: &'a Option<P::Tls>,
    address: &'a Option<String>,
    batch: &'a P::Batch,
    state: State<P>,
    event: Event<P>,
) -> (r: (State<P>, Action<'a, P>))
    requires
        state.awaits(event),
        state is Start || state is Tls || state.is_serving(),
    ensures
        config_step(*tls, *address, *batch, state, event, r.0, r.1),
{
    match (state, event) {
        (State::Start, _) => (
            State::Tls,
            Action::LoadTls { settings: tls.as_ref(), for_server: false },
        ),
        (State::Tls, Event::Failed(error)) => (
            State::Done,
            Action::Fail { error: SetupError::Failed(error), stop: None },
        ),
        (State::Tls, Event::TlsLoaded { settings, .. }) => open_service(
            settings,
            Some("vector.Vector"),
        ),
        (state, event) => next_serve_step(address.as_ref(), batch, state, event),
    }
}

} // verus!

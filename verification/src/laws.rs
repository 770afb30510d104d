//! What holds of addresses, health checks, retries, subscriptions and batches.

use vstd::prelude::*;

use tokio::sync::broadcast::Sender;

use crate::compression::VectorCompression;
use crate::config::{Input, VectorConfig, VectorMode};
use crate::emitter::{Emitter, Subscription};
use crate::grpc::{
    Code, HealthAction, HealthEvent, ServingStatus, SinkHealthcheckOptions, Status,
    VectorGrpcRetryLogic, VectorSinkError,
};
use crate::serve::{EventBatch, PullAction, RunAction, ServeService, ServeSink};
use crate::setup::SetupError;
use crate::uri::{AddressError, InvalidUriParts, Parts, Uri, UriView};

verus! {

/// The text of a URI is its components, one after the other, with `://` behind the scheme.
/// Where a component is missing, nothing stands for it.
pub proof fn a_text_is_made_of_its_components(uri: Uri, text: String)
    requires
        call_ensures(Uri::text, (&uri,), text),
    ensures
        uri@.scheme matches Some(scheme) ==> uri@.authority matches Some(authority)
            ==> uri@.path_and_query matches Some(path) ==> text@ == scheme + "://"@ + authority
            + path,
        uri@.scheme is None && uri@.path_and_query is None ==> (uri@.authority matches Some(
            authority,
        ) ==> text@ == authority),
        uri@.scheme is None && uri@.authority is None ==> (uri@.path_and_query matches Some(path)
            ==> text@ == path),
        uri@.scheme is None && uri@.authority is None && uri@.path_and_query is None ==> text@.len()
            == 0,
{
}

/// Components make up a URI if, and only if, all three are there, or there is no scheme and
/// at most one of the others. The URI has these very components. If not, the error says what
/// is missing: what a scheme needs, first the authority and then the path, or else the scheme.
pub proof fn components_stand_together_or_one_is_missing(
    parts: Parts,
    r: Result<Uri, InvalidUriParts>,
)
    requires
        call_ensures(Uri::from_parts, (parts,), r),
    ensures
        r is Ok <==> {
            ||| parts.scheme is Some && parts.authority is Some && parts.path_and_query is Some
            ||| parts.scheme is None && parts.authority is None
            ||| parts.scheme is None && parts.path_and_query is None
        },
        r == Err::<Uri, _>(InvalidUriParts::AuthorityMissing) <==> parts.scheme is Some
            && parts.authority is None,
        r == Err::<Uri, _>(InvalidUriParts::PathAndQueryMissing) <==> parts.scheme is Some
            && parts.authority is Some && parts.path_and_query is None,
        r == Err::<Uri, _>(InvalidUriParts::SchemeMissing) <==> parts.scheme is None
            && parts.authority is Some && parts.path_and_query is Some,
        r matches Ok(uri) ==> (uri@.scheme is Some <==> parts.scheme is Some)
            && (uri@.authority is Some <==> parts.authority is Some) && (
        uri@.path_and_query is Some <==> parts.path_and_query is Some),
        r matches Ok(uri) ==> parts.scheme matches Some(scheme) ==> uri@.scheme == Some(scheme@),
        r matches Ok(uri) ==> parts.authority matches Some(authority) ==> uri@.authority == Some(
            authority@,
        ),
        r matches Ok(uri) ==> parts.path_and_query matches Some(path) ==> uri@.path_and_query
            == Some(path@),
{
}

/// A URI that is taken apart goes together again, to what it was.
pub proof fn a_uri_goes_together_again(uri: Uri, parts: Parts, r: Result<Uri, InvalidUriParts>)
    requires
        call_ensures(Uri::into_parts, (uri,), parts),
        call_ensures(Uri::from_parts, (parts,), r),
    ensures
        parts@ == uri@,
        r is Ok,
        r->Ok_0@ == uri@,
{
}

/// A text is read as `http` reads it, and refused as `http` refuses it.
pub proof fn a_text_is_read_as_it_stands(text: &str, r: Result<Uri, http::uri::InvalidUri>)
    requires
        call_ensures(Uri::read, (text,), r),
    ensures
        r matches Ok(uri) ==> crate::uri::parsed_uri(text@) == Ok::<_, http::uri::InvalidUri>(uri@),
        r matches Err(refusal) ==> crate::uri::parsed_uri(text@) == Err::<UriView, _>(refusal),
{
}

/// Each error about components has its own text.
pub proof fn an_error_names_what_is_missing(missing: InvalidUriParts, message: &'static str)
    requires
        call_ensures(InvalidUriParts::message, (&missing,), message),
    ensures
        missing is SchemeMissing ==> message@ == "scheme missing"@,
        missing is AuthorityMissing ==> message@ == "authority missing"@,
        missing is PathAndQueryMissing ==> message@ == "path missing"@,
{
}

/// An address that reads as a URI with a scheme is taken for that very URI, whether TLS is
/// on or off, and whether or not the path is written out.
pub proof fn an_address_with_a_scheme_is_taken_as_it_is(
    address: &str,
    tls: bool,
    r: Result<Uri, AddressError>,
)
    requires
        call_ensures(crate::uri::with_default_scheme, (address, tls), r),
        crate::uri::parsed_uri(address@) is Ok,
        crate::uri::parsed_uri(address@)->Ok_0.scheme is Some,
    ensures
        r is Ok,
        r->Ok_0@ == crate::uri::parsed_uri(address@)->Ok_0,
{
}

/// An address without a scheme that has an authority is nothing but that authority. It gets
/// the scheme `https` where TLS is on, and `http` where it is off, and the path `/`.
pub proof fn an_address_without_a_scheme_gets_one(
    address: &str,
    tls: bool,
    r: Result<Uri, AddressError>,
)
    requires
        call_ensures(crate::uri::with_default_scheme, (address, tls), r),
        crate::uri::parsed_uri(address@) is Ok,
        crate::uri::parsed_uri(address@)->Ok_0.scheme is None,
        crate::uri::parsed_uri(address@)->Ok_0.authority is Some,
    ensures
        r is Ok,
        tls ==> r->Ok_0@.scheme == Some("https"@),
        !tls ==> r->Ok_0@.scheme == Some("http"@),
        r->Ok_0@.authority == Some(address@),
        r->Ok_0@.authority == crate::uri::parsed_uri(address@)->Ok_0.authority,
        r->Ok_0@.path_and_query == Some("/"@),
{
}

/// The address reads as a URI with a scheme or an authority: there is something to connect
/// to.
pub open spec fn names_an_instance(address: Seq<char>) -> bool {
    &&& crate::uri::parsed_uri(address) matches Ok(uri)
    &&& uri.scheme is Some || uri.authority is Some
}

/// The address stands for this URI, by what it reads as: for that very URI if it has a
/// scheme, and else for the authority, under the scheme that goes with TLS.
pub open spec fn stands_for(address: Seq<char>, tls: bool, uri: UriView) -> bool {
    &&& crate::uri::parsed_uri(address) matches Ok(read)
    &&& read.scheme is Some ==> uri == read
    &&& read.scheme is None ==> {
        &&& read.authority is Some
        &&& uri.authority == read.authority
        &&& tls ==> uri.scheme == Some("https"@)
        &&& !tls ==> uri.scheme == Some("http"@)
        &&& read.path_and_query is Some ==> uri.path_and_query == read.path_and_query
        &&& read.path_and_query is None ==> uri.path_and_query == Some("/"@)
    }
}

/// An address is resolved if it names an instance, and to nothing but what it stands for.
pub proof fn an_address_is_resolved_to_what_it_stands_for(
    address: &str,
    tls: bool,
    r: Result<Uri, AddressError>,
    uri: UriView,
)
    requires
        call_ensures(crate::uri::with_default_scheme, (address, tls), r),
    ensures
        r matches Ok(resolved) ==> (stands_for(address@, tls, uri) <==> resolved@ == uri),
        r is Err ==> !stands_for(address@, tls, uri),
{
}

/// An address is refused if, and only if, it does not read as a URI, with the refusal of
/// `http`, or reads as one that has neither a scheme nor an authority. TLS does not matter.
pub proof fn an_address_that_names_nothing_is_refused(
    address: &str,
    tls: bool,
    r: Result<Uri, AddressError>,
)
    requires
        call_ensures(crate::uri::with_default_scheme, (address, tls), r),
    ensures
        r is Ok <==> names_an_instance(address@),
        crate::uri::parsed_uri(address@) matches Err(refusal) ==> r == Err::<Uri, _>(
            AddressError::InvalidUri(refusal),
        ),
        crate::uri::parsed_uri(address@) is Ok && r is Err ==> r == Err::<Uri, _>(
            AddressError::InvalidUriParts(InvalidUriParts::AuthorityMissing),
        ),
{
}

/// TLS decides about nothing but the scheme of an address that names none: with TLS on and
/// off, an address is accepted or refused alike, for the same authority and the same path.
pub proof fn tls_decides_only_about_the_scheme(
    address: &str,
    on: Result<Uri, AddressError>,
    off: Result<Uri, AddressError>,
)
    requires
        call_ensures(crate::uri::with_default_scheme, (address, true), on),
        call_ensures(crate::uri::with_default_scheme, (address, false), off),
    ensures
        on is Ok <==> off is Ok,
        on is Err ==> on == off,
        on is Ok ==> {
            &&& on->Ok_0@.authority == off->Ok_0@.authority
            &&& on->Ok_0@.path_and_query == off->Ok_0@.path_and_query
            &&& on->Ok_0@.scheme == off->Ok_0@.scheme <==> crate::uri::parsed_uri(
                address@,
            )->Ok_0.scheme is Some
        },
{
    reveal_strlit("http");
    reveal_strlit("https");
    assert("http"@.len() != "https"@.len());
}

/// The text of a URI that an address was resolved to is an address of the same URI, with TLS
/// on or off. Only the text must not have grown too long to be read.
pub proof fn a_resolved_address_stays_resolved(
    address: &str,
    tls: bool,
    uri: Uri,
    text: String,
    again: &str,
    other: bool,
    r: Result<Uri, AddressError>,
)
    requires
        call_ensures(crate::uri::with_default_scheme, (address, tls), Ok(uri)),
        call_ensures(Uri::text, (&uri,), text),
        again@ == text@,
        again@.len() <= 65_534,
        call_ensures(crate::uri::with_default_scheme, (again, other), r),
    ensures
        r is Ok,
        r->Ok_0@ == uri@,
{
}

/// A URI that has a scheme keeps all that it has. One without gets the scheme that goes with
/// TLS, and the path `/` where it has none, if it has an authority; else it is refused.
pub proof fn a_uri_gets_only_what_it_lacks(uri: Uri, tls: bool, r: Result<Uri, InvalidUriParts>)
    requires
        call_ensures(crate::uri::default_scheme_of, (uri, tls), r),
    ensures
        uri@.scheme is Some ==> r is Ok && r->Ok_0@ == uri@,
        uri@.scheme is None && uri@.authority is None ==> r == Err::<Uri, _>(
            InvalidUriParts::AuthorityMissing,
        ),
        uri@.scheme is None && uri@.authority is Some ==> {
            &&& r is Ok
            &&& tls ==> r->Ok_0@.scheme == Some("https"@)
            &&& !tls ==> r->Ok_0@.scheme == Some("http"@)
            &&& r->Ok_0@.authority == uri@.authority
            &&& uri@.path_and_query is Some ==> r->Ok_0@.path_and_query == uri@.path_and_query
            &&& uri@.path_and_query is None ==> r->Ok_0@.path_and_query == Some("/"@)
        },
{
}

/// A default configuration pushes, uncompressed and without TLS settings, whatever its
/// address is, and holds that address.
pub proof fn a_default_config_pushes_in_plain<V, B: Default, R: Default, T, A: Default>(
    address: &str,
    config: VectorConfig<V, B, R, T, A>,
)
    requires
        call_ensures(crate::config::default_config::<V, B, R, T, A>, (address,), config),
    ensures
        config.mode == VectorMode::Push,
        config.compression == VectorCompression::Uncompressed,
        config.version is None,
        config.tls is None,
        config.address@ == address@,
        call_ensures(B::default, (), config.batch),
        call_ensures(R::default, (), config.request),
        call_ensures(A::default, (), config.acknowledgements),
{
}

/// The configuration of a URI holds the text of that URI and is a default one in all else,
/// whatever the URI is.
pub proof fn a_config_of_a_uri_pushes_in_plain<V, B: Default, R: Default, T, A: Default>(
    uri: Uri,
    text: String,
    config: VectorConfig<V, B, R, T, A>,
)
    requires
        call_ensures(Uri::text, (&uri,), text),
        call_ensures(VectorConfig::<V, B, R, T, A>::from_address, (uri,), config),
    ensures
        config.mode == VectorMode::Push,
        config.compression == VectorCompression::Uncompressed,
        config.version is None,
        config.tls is None,
        config.address@ == text@,
        call_ensures(B::default, (), config.batch),
        call_ensures(R::default, (), config.request),
        call_ensures(A::default, (), config.acknowledgements),
{
}

/// The example of a configuration differs from no other default configuration but in its
/// address.
pub proof fn the_example_is_a_default_config<V, B: Default, R: Default, T, A: Default>(
    address: &str,
    config: VectorConfig<V, B, R, T, A>,
    example: VectorConfig<V, B, R, T, A>,
)
    requires
        call_ensures(crate::config::default_config::<V, B, R, T, A>, (address,), config),
        call_ensures(VectorConfig::<V, B, R, T, A>::generate_config, (), example),
    ensures
        example.mode == VectorMode::Push,
        example.mode == config.mode,
        example.compression == VectorCompression::Uncompressed,
        example.compression == config.compression,
        example.version is None,
        example.tls is None,
        example.address@ == "127.0.0.1:6000"@,
        call_ensures(B::default, (), example.batch),
        call_ensures(R::default, (), example.request),
        call_ensures(A::default, (), example.acknowledgements),
{
}

/// A sink takes logs, metrics and traces, whatever its configuration is, and acknowledges as
/// configured.
pub proof fn a_sink_takes_everything<V, B, R, T, A>(
    config: VectorConfig<V, B, R, T, A>,
    input: Input,
    acknowledgements: &A,
)
    requires
        call_ensures(VectorConfig::<V, B, R, T, A>::input, (&config,), input),
        call_ensures(
            VectorConfig::<V, B, R, T, A>::acknowledgements,
            (&config,),
            acknowledgements,
        ),
    ensures
        input.log,
        input.metric,
        input.trace,
        *acknowledgements == config.acknowledgements,
{
    assert(input.takes(crate::config::DataType::Log));
    assert(input.takes(crate::config::DataType::Metric));
    assert(input.takes(crate::config::DataType::Trace));
}

/// A switch that is on compresses with `gzip`; one that is off does not compress.
pub proof fn a_switch_compresses_if_on(on: VectorCompression, off: VectorCompression)
    requires
        call_ensures(VectorCompression::from_switch, (true,), on),
        call_ensures(VectorCompression::from_switch, (false,), off),
    ensures
        on == VectorCompression::Gzip,
        off == VectorCompression::Uncompressed,
{
}

/// A health check asks only at its start, and so at most once: whatever it has learnt ends it.
pub proof fn a_health_check_asks_at_most_once<S>(
    options: SinkHealthcheckOptions,
    event: HealthEvent<S>,
    action: HealthAction<S>,
)
    requires
        call_ensures(crate::grpc::healthcheck::<S>, (&options, event), action),
    ensures
        action is Ask <==> options.enabled && event is Start,
        !(event is Start) ==> action is Done,
{
}

/// A health check that is on succeeds if, and only if, the instance reports that it serves.
/// One that is off succeeds. It does not matter where it asks.
pub proof fn a_health_check_needs_a_serving_instance<S>(
    options: SinkHealthcheckOptions,
    event: HealthEvent<S>,
    action: HealthAction<S>,
)
    requires
        call_ensures(crate::grpc::healthcheck::<S>, (&options, event), action),
    ensures
        !options.enabled ==> action == HealthAction::<S>::Done(Ok(())),
        options.enabled ==> (action == HealthAction::<S>::Done(Ok(())) <==> event
            == HealthEvent::<S>::Reported(Some(ServingStatus::Serving))),
{
}

/// A health check that is on fails with what it has learnt: with the code and the status of
/// the call, whichever they are, or with the state that the instance reports, if it is known.
pub proof fn a_failed_health_check_says_why<S>(
    options: SinkHealthcheckOptions,
    code: Code,
    source: S,
    name: String,
    of_call: HealthAction<S>,
    of_state: HealthAction<S>,
    of_unknown: HealthAction<S>,
)
    requires
        options.enabled,
        call_ensures(
            crate::grpc::healthcheck::<S>,
            (&options, HealthEvent::Failed { code, source }),
            of_call,
        ),
        call_ensures(
            crate::grpc::healthcheck::<S>,
            (&options, HealthEvent::Reported(Some(ServingStatus::Other(name)))),
            of_state,
        ),
        call_ensures(
            crate::grpc::healthcheck::<S>,
            (&options, HealthEvent::Reported(None)),
            of_unknown,
        ),
    ensures
        of_call == HealthAction::Done(Err(VectorSinkError::Request { code, source })),
        of_state == HealthAction::Done(Err(VectorSinkError::<S>::Health { status: Some(name) })),
        of_unknown == HealthAction::Done(Err(VectorSinkError::<S>::Health { status: None })),
{
}

/// Whether a failed call is worth a retry depends on its code alone. It is, unless the code
/// says that the call cannot succeed as it is.
pub proof fn only_the_code_decides_about_a_retry<S>(
    logic: VectorGrpcRetryLogic,
    code: Code,
    source: S,
    other_source: S,
    retried: bool,
    other_retried: bool,
)
    requires
        call_ensures(
            VectorGrpcRetryLogic::is_retriable_error::<S>,
            (&logic, &VectorSinkError::Request { code, source }),
            retried,
        ),
        call_ensures(
            VectorGrpcRetryLogic::is_retriable_error::<S>,
            (&logic, &VectorSinkError::Request { code, source: other_source }),
            other_retried,
        ),
    ensures
        retried == other_retried,
        retried <==> !(set![
            Code::NotFound,
            Code::InvalidArgument,
            Code::AlreadyExists,
            Code::PermissionDenied,
            Code::OutOfRange,
            Code::Unimplemented,
            Code::Unauthenticated,
            Code::DataLoss,
        ].contains(code)),
{
}

/// An instance that reports that it does not serve is tried again, whatever it reports.
pub proof fn an_unhealthy_instance_is_retried<S>(
    logic: VectorGrpcRetryLogic,
    status: Option<String>,
    retried: bool,
)
    requires
        call_ensures(
            VectorGrpcRetryLogic::is_retriable_error::<S>,
            (&logic, &VectorSinkError::Health { status }),
            retried,
        ),
    ensures
        retried,
{
}

/// A service that a sink offers refuses every push as something that it does not implement,
/// and whoever pushed does not try again.
pub proof fn a_service_refuses_every_push<T, S>(
    service: ServeService<T>,
    r: Result<(), Status>,
    logic: VectorGrpcRetryLogic,
    source: S,
    retried: bool,
)
    requires
        call_ensures(ServeService::<T>::push_events, (&service,), r),
        r is Err ==> call_ensures(
            VectorGrpcRetryLogic::is_retriable_error::<S>,
            (&logic, &VectorSinkError::Request { code: r->Err_0.code, source }),
            retried,
        ),
    ensures
        r is Err,
        r->Err_0.code == Code::Unimplemented,
        r->Err_0.message@ == "Sink vector does not support PushEventsRequest"@,
        !retried,
{
}

/// A service that a sink offers always reports that it serves, and so passes every health
/// check.
pub proof fn a_service_passes_every_check<T, S>(
    service: ServeService<T>,
    r: Result<ServingStatus, Status>,
    options: SinkHealthcheckOptions,
    action: HealthAction<S>,
)
    requires
        call_ensures(ServeService::<T>::health_check, (&service,), r),
        r is Ok ==> call_ensures(
            crate::grpc::healthcheck::<S>,
            (&options, HealthEvent::Reported(Some(r->Ok_0))),
            action,
        ),
    ensures
        r == Ok::<ServingStatus, Status>(ServingStatus::Serving),
        action == HealthAction::<S>::Done(Ok(())),
{
}

/// A service and a copy of it subscribe to one channel, which is that of the service.
pub proof fn copies_of_a_service_subscribe_alike<T>(
    service: ServeService<T>,
    copy: ServeService<T>,
    subscription: Subscription<Vec<T>>,
    subscription_of_copy: Subscription<Vec<T>>,
)
    requires
        call_ensures(<ServeService<T> as Clone>::clone, (&service,), copy),
        call_ensures(ServeService::<T>::pull_events, (&service,), subscription),
        call_ensures(ServeService::<T>::pull_events, (&copy,), subscription_of_copy),
    ensures
        copy == service,
        subscription.to() == service.emitter,
        subscription_of_copy.to() == service.emitter,
{
}

/// A subscription is answered with the very events of each item, as long as items come and
/// none reports a loss. A loss ends it, and so does the end of the channel; the two are told
/// apart.
pub proof fn an_item_is_answered_with_its_events<T, L>(
    next: Option<Result<Vec<T>, L>>,
    action: PullAction<T, L>,
)
    requires
        call_ensures(ServeService::<T>::pull_next::<L>, (next,), action),
    ensures
        forall|events: Vec<T>|
            action == PullAction::<T, L>::Respond(events) <==> next == Some(Ok::<_, L>(events)),
        forall|lag: L|
            action == PullAction::<T, L>::End(Some(lag)) <==> next == Some(
                Err::<Vec<T>, _>(lag),
            ),
        action == PullAction::<T, L>::End(None) <==> next is None,
        action == crate::serve::pull_step(next),
{
    assert(next matches Some(Ok(events)) ==> action == PullAction::<T, L>::Respond(events));
}

/// The new emitter of a channel has sent nothing, has the capacity that was asked for, and
/// gives away sending halves of its own channel.
pub proof fn a_new_emitter_has_sent_nothing<T: Clone>(
    capacity: usize,
    emitter: Emitter<Vec<T>>,
    half: Sender<Vec<T>>,
)
    requires
        call_ensures(Emitter::<Vec<T>>::open, (capacity,), emitter),
        call_ensures(Emitter::<Vec<T>>::sending_half, (&emitter,), half),
    ensures
        emitter.log().len() == 0,
        emitter.capacity() == capacity,
        half == emitter.channel(),
{
}

/// An event that is added to a new batch is all that the batch holds, with its finalizers.
/// One that is added to any batch comes last, after all that was there.
pub proof fn an_added_event_comes_last<F, T>(
    batch: &mut EventBatch<F, T>,
    finalizers: Vec<F>,
    event: T,
)
    requires
        call_ensures(EventBatch::<F, T>::push, (batch, finalizers, event), ()),
    ensures
        final(batch).events@ == old(batch).events@.push(event),
        final(batch).finalizers@ == old(batch).finalizers@ + finalizers@,
        crate::serve::pushed(*old(batch), finalizers@, event, *final(batch)),
        call_ensures(<EventBatch<F, T> as Default>::default, (), *old(batch)) ==> {
            &&& crate::serve::is_empty_batch(*old(batch))
            &&& final(batch).events@ == seq![event]
            &&& final(batch).finalizers@ == finalizers@
        },
{
    if call_ensures(<EventBatch<F, T> as Default>::default, (), *old(batch)) {
        assert(final(batch).events@ =~= seq![event]);
        assert(final(batch).finalizers@ =~= finalizers@);
    }
}

/// A batch that went out is released, whoever took it, and one that came back is rejected,
/// with what came back; its finalizers are kept either way.
pub proof fn what_came_back_is_rejected<F, T>(
    finalizers: Vec<F>,
    sent: Result<usize, Vec<T>>,
    action: RunAction<F, T>,
)
    requires
        call_ensures(crate::serve::settle::<F, T>, (finalizers, sent), action),
    ensures
        sent is Ok ==> action == RunAction::<F, T>::Release(finalizers),
        sent matches Err(events) ==> action == RunAction::Reject(EventBatch { finalizers, events }),
{
}

/// One step of a run sends the next batch once, all of it and nothing else, to the channel of
/// the sink, and the outcome says what becomes of the batch. Without a next batch nothing is
/// sent, and the sink shuts down. All else of the sink stays.
pub proof fn a_step_sends_the_next_batch_alone<F, T, B, C>(
    sink: &mut ServeSink<T, B, C>,
    next: Option<EventBatch<F, T>>,
    action: RunAction<F, T>,
)
    requires
        call_ensures(ServeSink::<T, B, C>::run::<F>, (sink, next), action),
    ensures
        crate::serve::run_step(*old(sink), next, *final(sink), action),
        final(sink).emitter.channel() == old(sink).emitter.channel(),
        final(sink).emitter.capacity() == old(sink).emitter.capacity(),
        final(sink).batch_settings == old(sink).batch_settings,
        final(sink).shutdown_trigger == old(sink).shutdown_trigger,
        next is None ==> action is Shutdown && final(sink).emitter.log() == old(
            sink,
        ).emitter.log(),
        next matches Some(batch) ==> {
            &&& final(sink).emitter.log().len() == old(sink).emitter.log().len() + 1
            &&& final(sink).emitter.log().drop_last() == old(sink).emitter.log()
            &&& is_settled_by(batch, final(sink).emitter.log().last(), action)
        },
{
    if next is Some {
        assert(final(sink).emitter.log().drop_last() =~= old(sink).emitter.log());
    }
}

/// An error about the address to serve on has a text of its own, and no other error has one.
pub proof fn an_error_about_the_address_has_a_text<E>(
    error: SetupError<E>,
    message: Option<&'static str>,
)
    requires
        call_ensures(SetupError::<E>::serve_message, (&error,), message),
    ensures
        message is Some <==> error is AddressMissing || error is AddressInvalid,
        error is AddressMissing ==> message->0@ == "address must be defined if mode is serve"@,
        error is AddressInvalid ==> message->0@ == "failed to parse address into SocketAddr"@,
{
}

/// What is copied equals what it was copied from.
pub proof fn a_copy_is_the_same(
    uri: Uri,
    copy_of_uri: Uri,
    parts: Parts,
    copy_of_parts: Parts,
    options: SinkHealthcheckOptions,
    copy_of_options: SinkHealthcheckOptions,
)
    requires
        call_ensures(<Uri as Clone>::clone, (&uri,), copy_of_uri),
        call_ensures(<Parts as Clone>::clone, (&parts,), copy_of_parts),
        call_ensures(<SinkHealthcheckOptions as Clone>::clone, (&options,), copy_of_options),
    ensures
        copy_of_uri == uri,
        copy_of_parts == parts,
        copy_of_options == options,
{
}

/// A URI keeps the scheme that it has, whether TLS is on or off.
pub proof fn a_given_scheme_is_kept(uri: UriView, tls: bool)
    requires
        uri.scheme is Some,
    ensures
        crate::uri::scheme_defaulted(uri, tls) == Ok::<_, crate::uri::InvalidUriParts>(uri),
{
}

/// A URI that has got a scheme is complete, keeps its authority, and never gets another
/// scheme.
pub proof fn defaulting_a_scheme_is_final(uri: UriView, tls: bool, other: bool)
    requires
        uri.well_formed(),
        crate::uri::scheme_defaulted(uri, tls) is Ok,
    ensures
        ({
            let defaulted = crate::uri::scheme_defaulted(uri, tls)->Ok_0;
            &&& defaulted.is_absolute()
            &&& defaulted.authority == uri.authority
            &&& crate::uri::scheme_defaulted(defaulted, other) == Ok::<
                _,
                crate::uri::InvalidUriParts,
            >(defaulted)
        }),
{
}

/// A configuration made from a URI that was read holds an address that reads as that URI
/// again. If the URI has a scheme, the configuration connects to that very URI, whether
/// TLS is on or off. Only the text of the URI must not have grown too long to be read.
pub proof fn a_config_keeps_its_uri<V, B: Default, R: Default, T, A: Default>(
    config: VectorConfig<V, B, R, T, A>,
    text: Seq<char>,
    uri: UriView,
    tls: bool,
)
    requires
        crate::uri::is_reading(text, uri),
        crate::config::is_default_config(config, uri.text()),
        text.len() < crate::uri::MAX_URI_LEN || uri.text().len() <= crate::uri::MAX_URI_LEN,
    ensures
        crate::uri::parsed_uri(config.address@) == Ok::<_, http::uri::InvalidUri>(uri),
        uri.scheme is Some ==> crate::uri::resolved(config.address@, tls) == Ok::<
            _,
            crate::uri::AddressError,
        >(uri),
{
}

/// Whoever pushes events to a sink that serves does not try again.
pub proof fn a_refused_push_is_not_retried<S>(refusal: Status, source: S)
    requires
        crate::serve::is_push_refusal(refusal),
    ensures
        !crate::grpc::is_retriable(VectorSinkError::Request { code: refusal.code, source }),
{
}

/// A sink that serves passes every health check.
pub proof fn a_serving_sink_is_healthy<S>(enabled: bool)
    ensures
        crate::grpc::health_step(
            enabled,
            HealthEvent::<S>::Reported(Some(crate::serve::reported_status())),
        ) == HealthAction::<S>::Done(Ok(())),
{
}

/// A check that is off succeeds without a request, whatever it is told.
pub proof fn a_check_that_is_off_asks_nothing<S>(event: HealthEvent<S>)
    ensures
        crate::grpc::health_step(false, event) == HealthAction::<S>::Done(Ok(())),
{
}

/// A health check that is on succeeds if, and only if, the instance reports that it serves.
pub proof fn only_serving_is_healthy<S>(event: HealthEvent<S>)
    ensures
        crate::grpc::health_step(true, event) == HealthAction::<S>::Done(Ok(())) <==> event
            == HealthEvent::<S>::Reported(Some(ServingStatus::Serving)),
{
}

/// The answers to a subscription that has received these items.
pub open spec fn pulled<T, L>(received: Seq<Result<Vec<T>, L>>) -> Seq<Vec<T>>
    decreases received.len(),
{
    if received.len() == 0 {
        Seq::empty()
    } else {
        match crate::serve::pull_step(Some(received.first())) {
            PullAction::Respond(events) => seq![events] + pulled(received.drop_first()),
            PullAction::End(_) => Seq::empty(),
        }
    }
}

/// A subscription is answered with all that it receives, in order and unchanged, up to
/// the first item that reports a loss.
pub proof fn a_subscription_sees_all_up_to_a_loss<T, L>(received: Seq<Result<Vec<T>, L>>)
    ensures
        pulled(received).len() <= received.len(),
        forall|i: int|
            0 <= i < pulled(received).len() ==> received[i] == Ok::<Vec<T>, L>(
                #[trigger] pulled(received)[i],
            ),
        pulled(received).len() < received.len() ==> received[pulled(received).len() as int] is Err,
    decreases received.len(),
{
    if received.len() > 0 && received.first() is Ok {
        let rest = received.drop_first();
        a_subscription_sees_all_up_to_a_loss(rest);
        assert forall|i: int| 0 <= i < pulled(received).len() implies received[i] == Ok::<
            Vec<T>,
            L,
        >(#[trigger] pulled(received)[i]) by {
            if i > 0 {
                assert(pulled(received)[i] == pulled(rest)[i - 1]);
            }
        }
    }
}

/// A subscription has received what was sent to its channel since it was made, one after
/// the other, up to the first loss.
pub open spec fn delivers<T, L>(sent: Seq<Vec<T>>, received: Seq<Result<Vec<T>, L>>) -> bool {
    forall|i: int|
        0 <= i < received.len() && (forall|j: int| 0 <= j <= i ==> received[j] is Ok) ==> {
            &&& i < sent.len()
            &&& #[trigger] received[i] == Ok::<Vec<T>, L>(sent[i])
        }
}

/// The answers to a subscription are the first batches that were sent since it was made:
/// one answer for each, in order, with no gap. They are all of them, if that many were
/// received and none was lost.
pub proof fn a_subscription_sees_what_was_sent<T, L>(
    sent: Seq<Vec<T>>,
    received: Seq<Result<Vec<T>, L>>,
)
    requires
        delivers(sent, received),
    ensures
        pulled(received).len() <= sent.len(),
        pulled(received) == sent.take(pulled(received).len() as int),
        received.len() == sent.len() && (forall|i: int|
            0 <= i < received.len() ==> received[i] is Ok) ==> pulled(received) == sent,
{
    a_subscription_sees_all_up_to_a_loss(received);
    let answers = pulled(received);
    assert forall|i: int| 0 <= i < answers.len() implies i < sent.len() && answers[i]
        == sent[i] by {
        assert forall|j: int| 0 <= j <= i implies received[j] is Ok by {
            assert(received[j] == Ok::<Vec<T>, L>(answers[j]));
        }
        assert(received[i] == Ok::<Vec<T>, L>(answers[i]));
    }
    if answers.len() > 0 {
        let last = answers.len() - 1;
        assert(answers[last] == sent[last]);
    }
    assert(answers =~= sent.take(answers.len() as int));
}

/// The channel with this sending half has brought a subscription to it what was sent since
/// the subscription was made.
pub open spec fn brings<T, L>(
    channel: Sender<Vec<T>>,
    sent: Seq<Vec<T>>,
    subscription: Subscription<Vec<T>>,
    received: Seq<Result<Vec<T>, L>>,
) -> bool {
    subscription.to() == channel ==> delivers(sent, received)
}

/// All that was sent has been received, and nothing was lost.
pub open spec fn keeps_up<T, L>(sent: Seq<Vec<T>>, received: Seq<Result<Vec<T>, L>>) -> bool {
    received.len() == sent.len() && forall|i: int| 0 <= i < received.len() ==> received[i] is Ok
}

/// Two subscriptions to one service, or to a service and a copy of it, do not share the
/// batches out: each of them, if it keeps up, is answered with every batch that was sent
/// since both were made, in the same order.
pub proof fn subscriptions_see_the_same<T, L>(
    service: ServeService<T>,
    copy: ServeService<T>,
    sent: Seq<Vec<T>>,
    first: Subscription<Vec<T>>,
    received_by_first: Seq<Result<Vec<T>, L>>,
    second: Subscription<Vec<T>>,
    received_by_second: Seq<Result<Vec<T>, L>>,
)
    requires
        copy == service,
        first.to() == service.emitter,
        second.to() == copy.emitter,
        brings(service.emitter, sent, first, received_by_first),
        brings(service.emitter, sent, second, received_by_second),
        keeps_up(sent, received_by_first),
        keeps_up(sent, received_by_second),
    ensures
        pulled(received_by_first) == sent,
        pulled(received_by_second) == sent,
{
    a_subscription_sees_what_was_sent(sent, received_by_first);
    a_subscription_sees_what_was_sent(sent, received_by_second);
}

/// The batches arise from an empty one by adding these events, each with its finalizers.
pub open spec fn fills<F, T>(items: Seq<(Seq<F>, T)>, batches: Seq<EventBatch<F, T>>) -> bool {
    &&& batches.len() == items.len() + 1
    &&& crate::serve::is_empty_batch(batches[0])
    &&& forall|i: int|
        0 <= i < items.len() ==> crate::serve::pushed(
            batches[i],
            (#[trigger] items[i]).0,
            items[i].1,
            batches[i + 1],
        )
}

/// A batch holds all events that were added to it, in order, and all their finalizers.
pub proof fn a_batch_holds_what_was_added<F, T>(
    items: Seq<(Seq<F>, T)>,
    batches: Seq<EventBatch<F, T>>,
)
    requires
        fills(items, batches),
    ensures
        batches.last().events@ == items.map_values(|item: (Seq<F>, T)| item.1),
        batches.last().finalizers@ == items.map_values(|item: (Seq<F>, T)| item.0).flatten(),
    decreases items.len(),
{
    let events = |item: (Seq<F>, T)| item.1;
    let finalizers = |item: (Seq<F>, T)| item.0;
    if items.len() == 0 {
        assert(items.map_values(finalizers).flatten() =~= Seq::empty());
    } else {
        let before = items.drop_last();
        assert(fills(before, batches.drop_last())) by {
            assert forall|i: int| 0 <= i < before.len() implies crate::serve::pushed(
                batches.drop_last()[i],
                (#[trigger] before[i]).0,
                before[i].1,
                batches.drop_last()[i + 1],
            ) by {
                assert(before[i] == items[i]);
            }
        }
        a_batch_holds_what_was_added(before, batches.drop_last());
        assert(items.last() == items[items.len() - 1]);
        assert(items.map_values(events) =~= before.map_values(events).push(items.last().1));
        assert(items.map_values(finalizers) =~= before.map_values(finalizers).push(
            items.last().0,
        ));
        before.map_values(finalizers).lemma_flatten_push(items.last().0);
    }
}

/// The finalizers that an action disposes of.
pub open spec fn disposed<F, T>(action: RunAction<F, T>) -> Seq<F> {
    match action {
        RunAction::Release(finalizers) => finalizers@,
        RunAction::Reject(batch) => batch.finalizers@,
        RunAction::Shutdown => Seq::empty(),
    }
}

/// A sink runs on these batches to the end: these are the sink before and after each of
/// its steps, and its actions.
pub open spec fn runs<F, T, B, C>(
    sinks: Seq<ServeSink<T, B, C>>,
    batches: Seq<EventBatch<F, T>>,
    actions: Seq<RunAction<F, T>>,
) -> bool {
    &&& sinks.len() == batches.len() + 2
    &&& actions.len() == batches.len() + 1
    &&& forall|i: int|
        0 <= i < batches.len() ==> crate::serve::run_step(
            sinks[i],
            Some(#[trigger] batches[i]),
            sinks[i + 1],
            actions[i],
        )
    &&& crate::serve::run_step(
        sinks[batches.len() as int],
        None,
        sinks[batches.len() as int + 1],
        actions.last(),
    )
}

/// The sends of a run, in order: all that was sent with the emitter of the sink, from the
/// first step to the last.
pub open spec fn sends<T, B, C>(sinks: Seq<ServeSink<T, B, C>>) -> Seq<
    (Vec<T>, Result<usize, Vec<T>>),
> {
    sinks.last().emitter.log().skip(sinks.first().emitter.log().len() as int)
}

/// What was sent, send by send.
pub open spec fn sent_values<T>(sends: Seq<(Vec<T>, Result<usize, Vec<T>>)>) -> Seq<Vec<T>> {
    sends.map_values(|send: (Vec<T>, Result<usize, Vec<T>>)| send.0)
}

/// The outcome of one send of the events of a batch, and what became of the batch.
pub open spec fn is_settled_by<F, T>(
    batch: EventBatch<F, T>,
    send: (Vec<T>, Result<usize, Vec<T>>),
    action: RunAction<F, T>,
) -> bool {
    &&& send.0 == batch.events
    &&& send.1 is Ok ==> action == RunAction::<F, T>::Release(batch.finalizers)
    &&& send.1 is Err ==> action == RunAction::Reject(batch)
}

/// The events of a sequence of batches, one batch after the other.
pub open spec fn events_of<T>(batches: Seq<Vec<T>>) -> Seq<T> {
    batches.map_values(|events: Vec<T>| events@).flatten()
}

/// A sink shuts down after its last batch and not before, and until then has disposed of
/// every finalizer once, in the order in which they came.
pub proof fn every_finalizer_is_disposed_of<F, T, B, C>(
    sinks: Seq<ServeSink<T, B, C>>,
    batches: Seq<EventBatch<F, T>>,
    actions: Seq<RunAction<F, T>>,
)
    requires
        runs(sinks, batches, actions),
    ensures
        forall|i: int|
            0 <= i < actions.len() ==> ((#[trigger] actions[i]) is Shutdown <==> i
                == batches.len()),
        actions.map_values(|action: RunAction<F, T>| disposed(action)).flatten()
            == batches.map_values(|batch: EventBatch<F, T>| batch.finalizers@).flatten(),
{
    let of_action = |action: RunAction<F, T>| disposed(action);
    let of_batch = |batch: EventBatch<F, T>| batch.finalizers@;
    assert forall|i: int| 0 <= i < actions.len() implies ((#[trigger] actions[i]) is Shutdown
        <==> i == batches.len()) by {
        if i < batches.len() {
            assert(crate::serve::run_step(
                sinks[i],
                Some(batches[i]),
                sinks[i + 1],
                actions[i],
            ));
        }
    }
    assert(actions.map_values(of_action) =~= batches.map_values(of_batch).push(Seq::empty())) by {
        assert forall|i: int| 0 <= i < batches.len() implies of_action(actions[i]) == of_batch(
            #[trigger] batches[i],
        ) by {}
    }
    batches.map_values(of_batch).lemma_flatten_push(Seq::empty());
    assert(batches.map_values(of_batch).flatten() + Seq::<F>::empty() =~= batches.map_values(
        of_batch,
    ).flatten());
}

proof fn lemma_log<F, T, B, C>(
    sinks: Seq<ServeSink<T, B, C>>,
    batches: Seq<EventBatch<F, T>>,
    actions: Seq<RunAction<F, T>>,
    k: int,
)
    requires
        runs(sinks, batches, actions),
        0 <= k <= batches.len(),
    ensures
        sinks[k].emitter.channel() == sinks[0].emitter.channel(),
        ({
            let before = sinks[0].emitter.log();
            let log = sinks[k].emitter.log();
            &&& log.len() == before.len() + k
            &&& log.take(before.len() as int) == before
            &&& forall|i: int|
                0 <= i < k ==> is_settled_by(
                    #[trigger] batches[i],
                    log[before.len() + i],
                    actions[i],
                )
        }),
    decreases k,
{
    let before = sinks[0].emitter.log();
    let log = sinks[k].emitter.log();
    if k == 0 {
        assert(log.take(before.len() as int) =~= before);
    } else {
        lemma_log(sinks, batches, actions, k - 1);
        let shorter = sinks[k - 1].emitter.log();
        assert(crate::serve::run_step(
            sinks[k - 1],
            Some(batches[k - 1]),
            sinks[k - 1 + 1],
            actions[k - 1],
        ));
        assert(log.take(before.len() as int) =~= shorter.take(before.len() as int));
        assert forall|i: int| 0 <= i < k implies is_settled_by(
            #[trigger] batches[i],
            log[before.len() + i],
            actions[i],
        ) by {
            if i < k - 1 {
                assert(log[before.len() + i] == shorter[before.len() + i]);
            }
        }
    }
}

/// A run sends every batch exactly once, in order and with all its events, and nothing
/// else, whether or not a send fails; what was sent before the run stays on record, and the
/// channel stays the same. A batch that nobody takes is rejected whole, and is the only one
/// to be: the others are settled by what became of themselves.
pub proof fn every_batch_is_sent_once<F, T, B, C>(
    sinks: Seq<ServeSink<T, B, C>>,
    batches: Seq<EventBatch<F, T>>,
    actions: Seq<RunAction<F, T>>,
)
    requires
        runs(sinks, batches, actions),
    ensures
        sinks.last().emitter.channel() == sinks.first().emitter.channel(),
        sinks.last().emitter.log() == sinks.first().emitter.log() + sends(sinks),
        sends(sinks).len() == batches.len(),
        forall|i: int|
            0 <= i < batches.len() ==> is_settled_by(
                #[trigger] batches[i],
                sends(sinks)[i],
                actions[i],
            ),
        sent_values(sends(sinks)) == batches.map_values(|batch: EventBatch<F, T>| batch.events),
{
    let before = sinks.first().emitter.log();
    let after = sinks.last().emitter.log();
    lemma_log(sinks, batches, actions, batches.len() as int);
    assert(after =~= before + sends(sinks)) by {
        assert forall|i: int| 0 <= i < before.len() implies after[i] == before[i] by {
            assert(after[i] == after.take(before.len() as int)[i]);
        }
    }
    assert forall|i: int| 0 <= i < batches.len() implies is_settled_by(
        #[trigger] batches[i],
        sends(sinks)[i],
        actions[i],
    ) by {
        assert(sends(sinks)[i] == after[before.len() + i]);
    }
    assert(sent_values(sends(sinks)) =~= batches.map_values(
        |batch: EventBatch<F, T>| batch.events,
    )) by {
        assert forall|i: int| 0 <= i < batches.len() implies sent_values(sends(sinks))[i]
            == (#[trigger] batches[i]).events by {}
    }
}

/// A batch that was rejected is not sent again, and ends nothing: what is sent after it is
/// the batches after it, each of them once and in order.
pub proof fn a_rejected_batch_is_left_behind<F, T, B, C>(
    sinks: Seq<ServeSink<T, B, C>>,
    batches: Seq<EventBatch<F, T>>,
    actions: Seq<RunAction<F, T>>,
    i: int,
)
    requires
        runs(sinks, batches, actions),
        0 <= i < batches.len(),
        actions[i] is Reject,
    ensures
        actions[i] == RunAction::Reject(batches[i]),
        sends(sinks)[i].0 == batches[i].events,
        sends(sinks)[i].1 is Err,
        sent_values(sends(sinks).skip(i + 1)) == batches.skip(i + 1).map_values(
            |batch: EventBatch<F, T>| batch.events,
        ),
{
    every_batch_is_sent_once(sinks, batches, actions);
    assert(is_settled_by(batches[i], sends(sinks)[i], actions[i]));
    assert(sent_values(sends(sinks).skip(i + 1)) =~= sent_values(sends(sinks)).skip(i + 1));
    assert(batches.skip(i + 1).map_values(|batch: EventBatch<F, T>| batch.events)
        =~= batches.map_values(|batch: EventBatch<F, T>| batch.events).skip(i + 1));
}

/// The events, each with its finalizers, that go into a sink, as they are grouped to
/// batches: each batch is filled from an empty one with the events of its group.
pub open spec fn groups_to<F, T>(
    groups: Seq<Seq<(Seq<F>, T)>>,
    fillings: Seq<Seq<EventBatch<F, T>>>,
    batches: Seq<EventBatch<F, T>>,
) -> bool {
    &&& fillings.len() == groups.len()
    &&& batches.len() == groups.len()
    &&& forall|i: int|
        0 <= i < groups.len() ==> fills(#[trigger] groups[i], fillings[i]) && fillings[i].last()
            == batches[i]
}

/// Every event that goes into a sink is sent exactly once, and all are sent in the order in
/// which they went in, whether or not a send fails.
pub proof fn every_event_is_sent_once_in_order<F, T, B, C>(
    sinks: Seq<ServeSink<T, B, C>>,
    groups: Seq<Seq<(Seq<F>, T)>>,
    fillings: Seq<Seq<EventBatch<F, T>>>,
    batches: Seq<EventBatch<F, T>>,
    actions: Seq<RunAction<F, T>>,
)
    requires
        groups_to(groups, fillings, batches),
        runs(sinks, batches, actions),
    ensures
        events_of(sent_values(sends(sinks))) == groups.flatten().map_values(
            |item: (Seq<F>, T)| item.1,
        ),
{
    let event = |item: (Seq<F>, T)| item.1;
    let events = |events: Vec<T>| events@;
    let sent = sent_values(sends(sinks));
    every_batch_is_sent_once(sinks, batches, actions);
    assert forall|i: int| 0 <= i < groups.len() implies sent[i]@ == (
    #[trigger] groups[i]).map_values(event) by {
        a_batch_holds_what_was_added(groups[i], fillings[i]);
        assert(is_settled_by(batches[i], sends(sinks)[i], actions[i]));
    }
    assert(sent.map_values(events) =~= groups.map_values(
        |group: Seq<(Seq<F>, T)>| group.map_values(event),
    ));
    lemma_flatten_of_map(groups, event);
}

proof fn lemma_flatten_of_map<X, Y>(groups: Seq<Seq<X>>, f: spec_fn(X) -> Y)
    ensures
        groups.map_values(|group: Seq<X>| group.map_values(f)).flatten()
            == groups.flatten().map_values(f),
    decreases groups.len(),
{
    let mapped = |group: Seq<X>| group.map_values(f);
    if groups.len() == 0 {
        assert(groups.map_values(mapped).flatten() =~= groups.flatten().map_values(f));
    } else {
        let rest = groups.drop_first();
        lemma_flatten_of_map(rest, f);
        assert(groups.map_values(mapped).drop_first() =~= rest.map_values(mapped));
        assert(groups.map_values(mapped).flatten() =~= groups.first().map_values(f)
            + rest.map_values(mapped).flatten());
        assert(groups.flatten() =~= groups.first() + rest.flatten());
        assert(groups.flatten().map_values(f) =~= groups.first().map_values(f)
            + rest.flatten().map_values(f));
    }
}

/// Who subscribes to the service of a sink before its run, and keeps up, is answered with
/// the events that go into the sink, all of them and in order. If someone was there at every
/// send, as such a subscriber is, then no batch is rejected.
pub proof fn a_subscriber_sees_the_events_of_the_sink<F, T, B, C, L>(
    sinks: Seq<ServeSink<T, B, C>>,
    groups: Seq<Seq<(Seq<F>, T)>>,
    fillings: Seq<Seq<EventBatch<F, T>>>,
    batches: Seq<EventBatch<F, T>>,
    actions: Seq<RunAction<F, T>>,
    service: ServeService<T>,
    subscription: Subscription<Vec<T>>,
    received: Seq<Result<Vec<T>, L>>,
)
    requires
        groups_to(groups, fillings, batches),
        runs(sinks, batches, actions),
        service.emitter == sinks.first().emitter.channel(),
        subscription.to() == service.emitter,
        brings(
            sinks.first().emitter.channel(),
            sent_values(sends(sinks)),
            subscription,
            received,
        ),
        keeps_up(sent_values(sends(sinks)), received),
        forall|i: int| 0 <= i < sends(sinks).len() ==> (#[trigger] sends(sinks)[i]).1 is Ok,
    ensures
        events_of(pulled(received)) == groups.flatten().map_values(|item: (Seq<F>, T)| item.1),
        forall|i: int| 0 <= i < actions.len() ==> !((#[trigger] actions[i]) is Reject),
{
    every_batch_is_sent_once(sinks, batches, actions);
    every_event_is_sent_once_in_order(sinks, groups, fillings, batches, actions);
    a_subscription_sees_what_was_sent(sent_values(sends(sinks)), received);
    assert forall|i: int| 0 <= i < actions.len() implies !((#[trigger] actions[i]) is Reject) by {
        if i < batches.len() {
            assert(is_settled_by(batches[i], sends(sinks)[i], actions[i]));
        }
    }
}

} // verus!

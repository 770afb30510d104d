# vector_sink

The rules of a sink that relays events between Vector instances over gRPC, verified
with Verus. In push mode the sink sends batches of events to a downstream instance; in
serve mode it hands them to the downstream instances that ask.

- `src/uri.rs`: how an address becomes the URI to connect to.
- `src/config.rs`: the configuration, its defaults, and the sink that it describes.
- `src/setup.rs`: the steps in which a sink is put together.
- `src/serve.rs`: the service and the batches of a sink that serves.
- `src/emitter.rs`: the channel from such a sink to those who have subscribed.
- `src/grpc.rs`: health checks, and which failures are worth a retry.
- `src/compression.rs`: the compression of requests.
- `src/laws.rs`, `src/setup_laws.rs`: what holds across several of these.

`app/` puts the rules to work with `hyper`, `tonic` and `tokio`. What it needs from the
program around it (certificates, request and batch settings, the generated gRPC client
and server) comes in through the trait `Host`.

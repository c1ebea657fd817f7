# umans-throttle

A throttling reverse proxy for the Umans Code API. It caps the number of
concurrent upstream requests with a semaphore, queues the overflow for at most
`max_wait`, and streams responses back transparently.

- `src/` is the library, verified with Verus: the configuration and its checks,
  the header filtering, the lifecycle of a permit, the response body that owns
  it, the steps of a request and of a usage sample, and the log records. It
  performs no I/O and reads no clock. `src/laws.rs` states what holds of the
  proxy as a whole.
- `app/` is the program around it: it reads the configuration file, serves HTTP,
  talks to upstream, runs the timers and writes the log.
- `tests/` runs the library with real semaphores and header maps.

## What is trusted

The library rests on the contracts that it gives to a few operations of other
crates: the header map and header values of `http`, `Url::parse` and `Url::join`
of `url` (through `reqwest`), and `Semaphore` of `tokio`. Each is marked
`external_body` and says what is claimed of it.

## Configuration

```toml
[upstream]
base_url = "https://api.code.umans.ai"

[server]
listen = "127.0.0.1:8080"
shutdown_timeout = "30s"

[throttle]
max_in_flight = 4
max_wait = "5m"
idle_timeout = "2m"
release_grace = "250ms"

[observability]
usage_sampling = "on_429"
```

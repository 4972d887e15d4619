# kronkeeper

A job scheduler and executor: jobs are submitted over a REST API, stored in
PostgreSQL, leased by an event-driven scheduler, run by a bounded worker pool
(outbound HTTP requests or scripts from a safe directory), retried with capped
exponential backoff, and reported through completion webhooks. Recurring jobs
are cron templates that spawn one instance at a time.

## Layout

- `src/` — the verified library: the service's rules and computations, each
  with its contract, proved with Verus.
  - `job.rs` — job states, payloads, requests, stored rows, responses, the
    columns of new jobs, and the retry backoff.
  - `heap.rs` — the scheduler's min-heap of due times.
  - `scheduler.rs` — sleep length, taking due jobs, and what follows an offer
    to the worker queue.
  - `worker.rs` — run results (output capture, the HTTP method check, HTTP
    and script results, timeouts) and what becomes of a job after a run.
  - `recurring.rs` — cron expressions, next fire times, instance keys, and the
    steps that spawn a template's next instance.
  - `webhook.rs` — which jobs get a callback, and the retrying delivery steps.
  - `api.rs`, `auth.rs` — request checks, answers, health, API keys.
  - `sandbox.rs` — script path joining and containment.
  - `metrics.rs` — the counters; `text.rs`, `time.rs` — shared helpers.
- `app/` — the daemon around the library: configuration, PostgreSQL queries,
  the HTTP server, the Tokio tasks, process and HTTP execution, Prometheus
  gauges, and the serde forms of the library's types.
- `tests/` — tests of the library on concrete values.

Instants are microseconds since the Unix epoch; identifiers are the 128-bit
values of UUIDs.

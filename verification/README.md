# logs_stream

Log streaming for dynamic application runs: applications publish their logs
to NATS JetStream on `logs.<namespace>.<application>.<component>.<run_id>`;
a relay streams one run's logs to browsers as Server-Sent Events, and an
archiver batches every log into OpenObserve.

The library (`src/`) holds the logic, each function with a contract proved
by Verus:

- `text`: decimal rendering, splitting (`splitn`), trimming, JSON string
  literals, UTF-8 decoding.
- `subject`: the subject hierarchy, its parsing and the filter subjects; the
  round trip of subject construction and parsing.
- `sse`: the frames that the HTTP layer sends.
- `relay`: the session service — query resolution into consumer policies,
  stream events and their frames, message enrichment, the session registry
  with its two agreeing indices, the pump's reaction to each event (messages
  that arrive while paused are held and delivered on resume), and the
  client's SSE stream.
- `server`: the shared-stream service — one stream per run, its pump, the
  client stream and the stop endpoint's reply.
- `archiver`: records and the fields they are sent with, the batch cycle,
  whose acknowledgements a batch releases only when an ingestion attempt
  answers with 200 OK, the OpenObserve target and the retry backoff.
- `generator`, `nats_utils`, and the configuration types.

`app/` is the program around it (`server`, `archiver`, `generator`, `relay`
as the first argument): configuration files, NATS, HTTP, tasks and channels.

The two registries are plain maps keyed by text (vstd's `StringHashMap`,
whose operations Verus specifies), not concurrent maps: the library is
sequential, and app/ serialises access to each registry with a mutex. The
stream ids of a run are kept in a `Vec` without duplicates (an invariant of
the relay registry) rather than a hash set of strings, because vstd gives a
set of `String` no specification that the registry's proofs could use.

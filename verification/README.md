# songparser

A service that takes songs from the song queue of a music API, writes the
queued metadata and cover art into each song file, uploads the edited file,
creates the song and cover art records and wipes the queues.

- `src/` is the verified library. `service` is the service as a state
  machine: `Service::step` takes what happened (an `Event`) and answers with
  the next `Action`; its transition table is `service::next` /
  `service::step_spec`, and `laws` proves what holds of every step.
  `api` and `auth` build the HTTP requests, `request` describes them,
  `metadata`, `parser` and `queue` hold the smaller decisions.
- `app/` runs the machine: it sends the requests with `reqwest`, reads and
  writes the files, sleeps, and hands the results back.
- `tests/` exercises the library on concrete values.

# hybrid-asr

Realtime speech recognition behind one session interface, with an engine that is local
(SenseVoice behind a voice activity detector) or online (a WebSocket service), and with the
decisions verified by [Verus](https://github.com/verus-lang/verus).

## Layout

- `src/` is the verified library. It touches no disk and no network: where something outside has to
  be done, it is a machine that says what it wants done and takes what came of it. The clock it does
  read: a session dates its events by `SystemTime::now`.
  - `session.rs`, `backend.rs`: the states of a session, and the engine that it drives.
  - `event.rs`: the event hub, with one mailbox per subscriber. A hub has a number, which whoever
    makes several of them gives them, and a receiver reads from its own hub only.
  - `engine/online.rs`: what the online engine sends and reads, and when.
  - `engine/online_protocol.rs`, `engine/online_auth.rs`: the messages of the online service, and
    the tokens that it wants.
  - `engine/local.rs`: the set-up of the local recogniser, and its results.
  - `assets.rs`, `assets/preparation.rs`: how the models of local recognition are found, downloaded
    and announced.
  - `config.rs`, `types.rs`, `error.rs`, `json.rs`, `paths.rs`, `text.rs`: what the rest is written
    with.
  - `event_laws.rs`, `session_laws.rs`, `engine/online_laws.rs`, `engine/framing_laws.rs`,
    `assets/laws.rs`, `assets/outcome_laws.rs`, `assets/result_laws.rs`, `assets/failure_laws.rs`:
    what holds of it all, as proofs.
- `app/` is ordinary Rust around it: files, sockets, threads, floating point, and the crates that
  install models, detect speech and recognise it.
- `tests/` holds the tests of the library.

## A session

    new ──▶ Idle ──start──▶ Initializing ──▶ Ready ──accept_samples──▶ Recognizing
                                               ▲                            │
                                               │                         finish
                                     prepare_next_turn / reset              │
                                               │                            ▼
                                               └──── Finished ◀──────── Finishing

`pause` leads to `Paused`, in which audio is dropped, and `resume` back to `Recognizing`. An error of
the engine leads to `Error` from anywhere. Subscribers hear of every change, in order.

## Models

`prepare_local_asr_assets` downloads what is missing only if `auto_download` allows it;
`download_local_asr_assets` downloads it in any case; `inspect_local_asr_assets_download` foretells
whether anything would be downloaded. Subscribers hear that a model is missing before anything is
downloaded, and that it is ready or has failed at the end. Whether or not anything was missing, the
configuration that comes out names the directories in which the models are. Models that are there
are taken: if the voice activity model cannot be located then, its directory stays as configured.

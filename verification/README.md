# transcription_coordinator

The decision core of a dictation coordinator, verified with Verus. It takes shortcut
edges, external triggers, cancels and pipeline notifications one at a time and decides
when a recording starts, when it stops, and whether its transcript is post-processed.

- `src/state.rs`: the state machine; `src/driver.rs`: the decisions of its loop
- `src/classify.rs`, `src/binding.rs`, `src/event.rs`, `src/time.rs`: what it is made of
- `src/model.rs`: the machine as mathematics, which every contract refers to
- `src/laws/`: what is proved of whole sequences of events
- `app/`: the thread, the channel and the clock around the core
- `tests/`: the machine on concrete sequences

The core reads no clock. Whoever observes an event stamps it, in nanoseconds since an
origin of its own, and hold durations are measured between those stamps.

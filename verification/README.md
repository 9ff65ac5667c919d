# nofriction_meetings

The decision logic of a meeting recorder, written in Verus: screen-state
deduplication, text diffs, episode and cluster building, calendar and
attendee handling, the capture state machines (recording engine, ambient
capture, accessibility capture, continue prompts, the interaction loop),
retention of stored chunks, the management console's rules, query building,
the meeting timeline and note export, and the prompts sent to models.

Layout:

- `src/` — the verified library. Each module states its behaviour in
  `requires`/`ensures` over spec functions and views; laws that relate
  several functions are public proof functions (`lemma_*`). Calls into
  outside crates (`sha2`, `base64`, `uuid`, `chrono`, `image`, `serde_json`)
  go through small trusted wrappers whose contracts are documented where
  they stand.
- `tests/` — tests of the library on concrete values.
- `app/` — the unverified surroundings: file system walks, SQLite, the
  environment file, JSON copies of the library's types, platform stubs,
  and the flows that call language models.

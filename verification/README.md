# workbeat

The rules of a focus-interval tracker driven from a chat bot, verified with
Verus. A work day is made of hour intervals; an interval is made of
ten-minute checks ("are you working?"). Five worked checks close the work
stage of an interval and earn a ten-minute rest; eight closed intervals make
the daily norm.

## Layout

- `src/` — the verified library.
  - `value_objects.rs`, `ids.rs`, `calendar.rs`, `text.rs`: timestamps, spans,
    identifiers, calendar dates (computed by chrono), decimal text.
  - `user.rs`, `work_day.rs`, `hour_interval.rs`, `ten_min_check.rs`,
    `task.rs`: the entities and their views.
  - `ten_min_check_state.rs`, `hour_interval_state.rs`, `decisions.rs`,
    `time_calculations.rs`: the state machines and the decisions of the
    polling loop (ask, resolve silence, remind, prompt, suggest lunch), task
    time, the norm and overruns.
  - `ordering.rs`: stable ordering by an integer key.
  - `use_cases/`: each command and tick as a function from the rows it reads
    to the rows it writes and the texts it sends, with the day, period and
    CSV reports.
  - `settings.rs`: the settings from the values of the environment variables,
    and the system clock (read through the standard library).
- `tests/`: scenarios over the library.
- `app/`: reads the environment (and `.env`) for the settings.

Every public function states its result in `ensures`; the `lemma_*` proof
functions state the laws that tie several functions together.

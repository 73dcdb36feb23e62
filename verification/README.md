# delay_timer

A time-wheel based manager of delayed and periodic tasks, verified with Verus.

## Layout

- `src/` — the verified library:
  - `timer/task.rs`: task frequencies (seconds, minutes, hours, days, cron
    expressions), the task builder, tasks and their marks.
  - `timer/slot.rs`, `timer/timer_core.rs`: the 3600 slots of the wheel, the
    second hand, the collection of due tasks and the placement of tasks.
    `entity.rs` holds the shared core: the slots in a `Vec` indexed by slot
    number, and the mark of each task in a `dashmap::DashMap`; the record
    ids of running instances come from a generator that the caller makes.
  - `timer/runtime_trace/sweeper.rs` keeps the timeouts in a `Vec` sorted by
    deadline; `task_handle.rs` keeps the handles of a task's running
    instances in a `Vec`.
  - `timer/event_handle.rs`: what each event does to the wheel, the marks and
    the trace of running instances.
  - `timer/runtime_trace/`: handles of running instances, the chain of
    instances a user can follow, and the timeout heap of the recycler.
  - `utils/parse/`: how a line of shell commands is read into the pipeline
    stages to start.
  - `utils/convenience/`, `utils/status_report.rs`: cron candies, default
    handlers and the public events.
- `app/` — threads, channels, runtimes and processes around the library:
  `DelayTimer`, the scheduler and event loops, task instances, and the
  spawning of routines and processes.
- `tests/` — tests of the library.

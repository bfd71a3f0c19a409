# agent_deadline

A cooperative per-task deadline for agent loops, verified with Verus.

- `src/duration.rs`: `Duration`, a span held as a plain count of nanoseconds
  with the range of `std::time::Duration`.
- `src/clock.rs`: the trusted calls into `std::time`, stated over the position
  of an instant on the clock's timeline and the length of a `std` duration.
- `src/deadline.rs`: `Deadline` and `DeadlineExceeded`. The `*_at` functions
  take a reading of the clock as an argument and are exact; the functions that
  read the clock state that their result is the `*_at` result for some reading.
- `src/laws.rs`: proved properties across calls and readings.
- `app/`: fractional seconds, `Display`/`Error` for the exceeded error, and
  `serde` support through a snapshot of the remaining time.

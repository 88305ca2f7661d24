# oxitimer

A work/break interval (pomodoro) timer for the terminal. `src/` is the
verified library; `app/` is the terminal program around it.

- `timer_session` — the session model: work and break sessions, pausing,
  cycle limits, and the remaining time, with the laws every operation keeps.
- `time` — spans of time and the clock readings the session uses.
- `cli` — reading the command line into durations in seconds.
- `terminal_ui`, `digit_display`, `text` — what the screens show.
- `sound`, `controls` — which sound plays when, which file a sound comes
  from, and what each key does.

`app/` draws the screens with crossterm, plays sounds with rodio, parses the
arguments with clap and runs the timer loop on tokio.

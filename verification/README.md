# nudge

Subscriptions for agents: declare what you are waiting for, and get woken up when it
happens. `nudge wait` blocks until a condition is met and prints the event; `nudge on`
registers a command that is run then. Conditions are timers (`timer 30m`) and things that
happen on GitHub (`github pr 42 merged`; `ci 2199 success` and `issue 2208 new-comment`
are short for `github ci …` and `github issue …`), which are asked of the `gh` command:
about a run every 30 seconds, about a pull request every minute, about an issue every two.
`wait` gives up after an hour if no `--timeout` is given; it exits with 0 when the event
is there, with 1 when the time is over, and with 2 on an error.

- `src/` is the library, verified with Verus: how the words of a command line become a
  condition, what is asked of `gh` and what its answers mean, the store, the life of a
  subscription in it and the changes that the table needs, and what the daemon does in a
  round.
- `app/` is the program around it: the command line, the SQLite file, running `gh` and
  the commands, and the daemon's loop.
- `tests/` runs the library on given values.

The contracts of `src/outside.rs`, and that of `String::push` in `src/text.rs`, are
believed; everything else in `src/` is proved. What holds across operations is stated as
proof functions whose names begin with `law_`.

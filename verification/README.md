# atuin_search

The interactive and non-interactive history search of a shell history tool,
as a verified library.

- `src/state.rs`: the search state, what each key press does to it, and what
  to ask the history database.
- `src/render.rs`: the lines of the result list (offset labels, run times,
  ages padded to a common width, one-line commands).
- `src/clock.rs`: run times and ages as shown, through `humantime`, and the
  system clock.
- `src/filter.rs`: which entries a non-interactive search keeps, with dates
  read by `chrono_english`.
- `src/date_text.rs`: which date texts that reader takes without stopping.
- `src/layout.rs`: compact or full screen, and where the cursor goes.
- `src/text.rs`: the string operations these rely on.
- `src/laws.rs`: properties that span several operations.
- `app/`: the terminal, the database and the command line around them.

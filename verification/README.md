# Duetime

A terminal planner: a table of tasks with stopwatches, an inbox of notes, an
agenda of dated events that can repeat every year, and countdown timers.

- `src/` is the library, written in Verus. The actions on the planner's
  state — adding, editing, moving, deleting and searching rows, starting
  and stopping stopwatches and countdowns, validating and sorting agenda
  events, the daily agenda clean-up — and the key handlers of the task
  table, the inbox, the agenda, the timers and their add and edit popups
  carry contracts that Verus proves, as do the rows the task table shows.
  Stopwatches and countdowns measure time on a monotonic clock
  (`clock::Clock`) that the caller passes in; its readings never go back.
  Calls into chrono and std that cannot be verified sit behind small
  trusted wrappers whose contracts say what the outside code does.
- `app/` is the terminal program around it: the ratatui screen, crossterm
  keys, the clipboard, and the JSON files in the configuration directory.
  The popups for presets, known tasks, task details, help, inbox details
  and the list of all events have no key handler in the library; there Esc
  closes them.
- `tests/` runs the library on concrete values.

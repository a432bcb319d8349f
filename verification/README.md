# breeze

The verified core of the Breeze desktop host, a menu-bar app that paces work and breaks.

`src/` is a Verus library: the host's decisions on plain values (parsing, refusals, labels,
statistics, restoration, sleep detection, journaling, surface bookkeeping) are verified
functions with contracts. The order in which a command calls the cycle scheduler, the store
and the platform stays in `app/`, beside those calls.

- `domain`, `ports`: the plain values exchanged with the break cycle and the platform adapters.
- `dto`, `cycle`: what the panel is told of the cycle, and the cycle commands' parsing and refusals.
- `ledger`, `calendar`: the thirty-day statistics over the journal's daily totals (dates named by chrono).
- `journal`: the queue of break outcomes awaiting the store, with its retry delay.
- `overlay`, `monitor`: labels and bookkeeping of break surfaces, screen identifiers, the screen
  cache and the displays port that reads it.
- `presentation`: AppKit's presentation options for a Hardcore break and the rules that combine them.
- `local_time`, `ticker`, `panel`, `tray`, `settings`, `startup`, `apps`, `windows`: labels,
  menu-bar title, sleep detection, panel toggling, settings views, launch restoration,
  application lists and web addresses.
- `text`: decimal rendering.

`app/` is the Tauri shell around it (commands, threads, AppKit calls, window placement in
floating point); `tests/` exercises the library.

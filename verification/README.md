# ebc_hub

The verified core of a hub that manages ZKETECH EBC battery testers: battery
test records, the interactive console's command grammar, the programs sent to
a tester, and the test runner's decisions.

- `src/` is the library, verified with Verus:
  - `models` – test modes and configurations, tests, battery intake records;
  - `numbers` – decimal integers as the console reads them;
  - `words` – splitting a console line into words;
  - `command` – the console's commands;
  - `device` – the program requests for a tester;
  - `records` – the storage decisions that need no database;
  - `runner` – the test runner as a state machine from events to actions.
- `app/` is the program around it: the console, the SQLite store and the
  runner's service loop.
- `tests/` exercises the library, and compares its number reader and word
  splitter with the standard library's.

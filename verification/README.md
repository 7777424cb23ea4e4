# xadmin

The logic of a desktop administration tool — network ports and the
processes behind them, closing ports and stopping processes, terminal
sessions, scripts, the command history and the system monitor — as a Verus
library whose functions carry contracts that Verus proves.

- `src/` is the verified library. Each step that needs the system (running
  a command, writing a file, reading a sensor) is left to the host: the
  library either takes the result as an argument or, for a cascade of
  commands, is a state machine that names the next command and is handed
  what came of it.
- `app/` is the host: a command-line program that runs the commands, the
  pseudo-terminals, the database and the sensors, and does the floating
  point arithmetic of the monitor.
- `tests/` runs the library on concrete inputs.

Modules of the library:

| module     | what it holds |
|------------|---------------|
| `text`     | character-level text functions and their specifications |
| `command`  | command lines, their outcomes, the actions of the state machines |
| `ports`    | the `netstat` table, process names, the ports cache and its refresh |
| `kill`     | closing a port, closing a port of one process, forced termination |
| `terminal` | the filter on the output of a terminal session |
| `pty`      | the registry of terminal sessions |
| `scripts`  | running and saving scripts |
| `history`  | the command history's plans and messages |
| `machine`  | processor, memory and process details, the monitor's schedules |
| `disks`    | volumes and disk speeds |
| `gpu`      | the video card |
| `desktop`  | the greeting and showing a process's executable |

# cim_core

The decisions behind the `cim` command line, with contracts that Verus checks.

- `src/` is the library. Each command that has to wait for the outside world is
  a state with a `step`: the state says what it waits for, and `step` takes what
  came of that to the next state and the messages for the user. What a step does
  is stated by a spec function over the state's view; the laws at the end of
  each module speak of single steps and of whole runs.
- `app/` does the file, network and terminal work that the states wait for. What
  the rest of the program provides comes in through its `Host` trait.
- `tests/` drives the library on disks, clocks and archives that are held in
  memory.

| module | what it decides |
| --- | --- |
| `bootstrap`, `bootstrap_config`, `picker`, `phases` | choosing a target and a version, initialising a workspace, running its phases |
| `repair`, `repair_plan`, `repair_execution` | what is stale about a virtual environment, and putting it right |
| `venv_lock` | the advisory lock of a shared mirror environment |
| `update`, `archive`, `overrun` | replacing the installed program by the latest release |
| `utils_cmd` | which task a `cim utils` command stands for |
| `message`, `path`, `text` | what the others are written with |

Seven functions are trusted rather than proved, each with a doc comment that says
what it claims: `str::to_lowercase`, `String::from_utf8_lossy`, decompressing
gzip, listing a gzip-compressed tar archive, the size in a tar header, the
extended records of a tar file, and the usual reason of an HTTP status code.

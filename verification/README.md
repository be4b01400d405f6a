# eink

The verified core of an e-ink companion display stack: a surface compositor
that clients share textures with, a screen capturer that feeds it, the
panel-controller driver, a virtual-monitor driver link, the service pipes and
the logger.

The library (`src/`) is written in Verus. Every function carries a contract
over mathematical models (sequences, integers, views of the data types), and
the laws that relate several operations are public proof functions named
`law_*`. The graphics, window-manager and driver calls of the stack are not in
the library: its functions compute the values those calls are made with, and
decide what to do with their results.

| module      | contents                                                                 |
|-------------|--------------------------------------------------------------------------|
| `composer`  | compositor messages and the client's reading of replies                  |
| `flinger`   | the compositor's clients and layers, layer geometry, surface names       |
| `capture`   | capture source choice, window queries, user selection, per-frame plans   |
| `tcon`      | panel-controller command sequences and cover-image slots                 |
| `display`   | frame pacing, buffer alternation, shader definitions                     |
| `iddcx`     | I/O control codes, driver request texts, device-path lookup              |
| `pipe`      | JSON-RPC dispositions and the service API calls                          |
| `logger`    | log record formatting, log directory and log file                        |
| `window`    | helper-window message handling and taskbar plans                         |
| `topic`     | event-bus topics                                                         |
| `iterable`  | a cursor over a vector                                                   |
| `driver`    | installation of the display filter driver service                        |
| `text`      | decimal rendering and random identifiers                                 |

`app/` holds the ordinary Rust around the library: the binary encoding of
the compositor messages, command-line parsing, logger start-up and the
JSON-RPC replies. `tests/` exercises the library on concrete values.

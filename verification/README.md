# dzsspeedy

The verified core of DzsSpeedy, a Windows speed hack front end: a desktop
application lists processes and asks a per-architecture bridge process, over
a named pipe, to inject `speedpatch` into a target and to switch it on and off.

- `src/` is the library, verified with Verus:
  - `text` — exact text helpers (decimal and hexadecimal rendering, words,
    trimming, UTF-16).
  - `bridge` — the bridge's logic: the pipe protocol (`protocol`), the
    speedpatch handshake (`handshake`, `init_codes`), the per-target
    bookkeeping (`registry`, `ops`, `inject`), operation admission and
    shutdown (`atomics`), the hook-based injection as step functions
    (`hook`), and what is read from the target (`threads`, `modules`,
    `target`, `logs`).
  - `client` — the desktop side's bridge requests and bridge repair.
  - `process` — the process list, its caches and the module list.
  - `icon` — process icons as PNG data URIs.
  - `recovery` — how the desktop side recognizes a bridge that shuts down.
- `tests/` runs the library on concrete values.
- `app/` is the Windows program around it: the Win32 calls, the pipe server,
  the bridge's threads and the desktop glue. It performs what the library's
  step functions ask for and hands back what it observed.

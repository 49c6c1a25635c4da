# xxmapper

Maps arbitrary Linux game controllers onto a virtual Xbox 360 pad.

The library under `src/` is verified with Verus:

- `controllers/` — Linux input events and axis metadata (`evdev`), stable
  controller identity from udev properties (`identity`), and the
  classification and ordering of discovered devices (`discovery`).
- `mapping/` — the typed mapping model, the press/release capture state
  machine (`detector`), the runtime translation of physical events into Xbox
  events (`mapper`), the predefined layouts and the decisions of a live
  mapping session.
- `xbox` — the virtual pad's name, its registered buttons and axes, how each
  translated event is written to it, and the backend seam.
- `config/` — the versioned configuration schema and where its files live.
- `ui` — the values the front end shows.
- `text` — string helpers with exact contracts (trimming, ordering,
  sanitising, decimal formatting).

`app/` is the unverified program around it: device I/O (`/dev/input`, udev,
`poll(2)`, `/dev/uinput`), JSON storage with atomic writes, threads and the
command line.

Stick and trigger values are rescaled with exact integer arithmetic,
rounding halves away from zero. On the common axis ranges this gives the
same values as an `f64` rescaling; on unusual ranges the two can differ by
one unit where the `f64` rounding errors meet a value at or next to a half
(for example the range `0..=131068` with the value `383` gives `-32576`
here and `-32575` in `f64`).

The front end in `app/` is a command-line program (`list`, `map`, `run`,
`watch`); no graphical toolkit is used.

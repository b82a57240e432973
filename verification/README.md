# orbiscreen

The decision-making core of Orbiscreen, a virtual second display for Linux
that streams to Android tablets and phones, written in Verus. Its functions
are proved against their contracts; the few calls into serde_json,
drm-fourcc and std that the library makes go through small `external_body`
wrappers, whose contracts are trusted rather than proved.

- `src/` is the library. Each module states what it computes as spec
  functions and proves its executable code against them: session and
  capture-plan detection (`capabilities`), configuration bounds (`config`),
  the frame buffer pool (`frame_pool`), the client-display session table and
  its idle reaping (`hub`), frame assembly and duplicate detection
  (`capture`), compositor IPC framing and replies (`wlroots`, `kwin`,
  `kscreen`), forgetting KWin's saved virtual outputs (`kwin`, over the JSON
  documents that `json` reads with serde_json), EDID and framebuffer
  conversion (`display`), input mapping and touch slots (`input`),
  diagnostics (`doctor`), and the command line's texts and plans (`ui`,
  `daemon`, `gui`). Public `law_*` proof functions state the properties that
  hold across calls.
- `tests/` runs the library on concrete inputs.
- `app/` is a thin `orbiscreen` command line around the library: argument
  parsing, the configuration and portal files, the systemd service, the
  daemon's D-Bus status, and diagnostics. It holds no capture backend,
  encoder, network transport, device bridge or graphical front end: `start`
  plans the capture chain and reports each step unavailable, and `devices`
  finds no ADB devices.

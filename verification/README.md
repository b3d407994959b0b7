# canvaswm

The decision logic of CanvasWM, an infinite-canvas Wayland compositor,
written in Verus and proved against its contracts.

- `src/` — the verified library:
  - `input` — actions, directions, key bindings, pointer button and scroll
    decisions, move-grab release.
  - `focus` — focus history and Alt-Tab cycling as a model with laws
    (promotion, idempotence, inverse cycle steps, quick switch), the focus
    side of pointer clicks, fullscreen toggling.
  - `ipc` — control-socket requests: which command a request names or why it
    is refused, error texts, responses, the window list.
  - `config` — keyboard and cursor defaults, config file candidates, format
    by extension, the search over candidates, decoration mode, command line.
  - `panel`, `minimap`, `decor`, `grid` — integer layout of the panel bar,
    the minimap and its clamping, decoration quads across windows and
    dot-grid bounds; `frame` — the front-to-back order of a frame's
    elements.
  - `programs` — the terminals and launchers tried, in order.
  - `background` — background kind and fallbacks, file path resolution,
    image decoding (through the `image` crate).
  - `navigation` — bounding box of the windows; `x11` — configure requests.
  - `text` — string equality, decimal notation, path joining.
- `app/` — the program around it: command line, configuration files (serde),
  environment and autostart, the IPC socket, the floating-point canvas
  geometry (viewport, momentum, navigation, placement, snapping) and the
  session state that input and actions change.
- `tests/` — tests of the library.

app/ holds no Wayland server: the backends, the input devices and the
renderer of the compositor are built on smithay, which this crate does not
depend on. The layout and ordering functions of the library (`panel`,
`minimap`, `decor`, `frame`, `x11`) are what such a backend calls each
frame; the session's input handlers in app/ wait for an input source.

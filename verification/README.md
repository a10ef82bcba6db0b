# centered_engine

The engine core of the CTD GUI framework, verified with Verus.

- `src/` is the verified library:
  - `wire`, `batch`, `command`, `render`: the batched binary protocol
    between the host application and the engine — request framing,
    the decoding of every command payload (render frames included) and the
    encoding of responses;
  - `ffi_render`: render commands arriving through the C interface;
  - `audio`: audio metadata and errors, the playback state machine
    (`audio::player`) and the capture state machine (`audio::input`);
  - `registry`: objects handed to the host application by id;
  - `dialog`: what native file dialogs are given (title, directory,
    extensions) and what they hand back (the chosen paths in JSON);
  - `event`: events, event batches and the dispatcher (hover, press,
    focus);
  - `app_event`: key numbers, modifier flags, button numbers and the event
    sequences sent for keys and touches;
  - `tray`: the tray icon's menu model;
  - `frame`: colours, redraw scheduling, layer composition, the frame
    plan and the decoration of frameless windows.
- `app/` is the platform side: the C entries (batch, audio, file
  dialogs), winit input, serde forms of the events, the cpal audio host
  and the dispatch of decoded commands.
- `tests/` runs the library on concrete values.

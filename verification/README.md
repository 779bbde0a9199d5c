# frame

The verified core of the Frame UI framework: the state that its widgets keep
and the decisions they make, written in Verus with contracts and proofs.

`src/` (the `frame` library) holds:

- `text_field` — the editing state of a text field (UTF-8 text, byte cursor,
  length limit, input state), with the laws that the cursor never passes the
  end, that backspace undoes a typed character, and that one-byte characters
  never push the text past its limit;
- `dialog` — dialog configurations, dialogs, the dialog stack and the backdrop
  overlay, with the laws that a result listener is told at most once, that the
  stack is last-in first-out, and that dismissing all tells every waiting
  listener;
- `toggle`, `button`, `dropdown`, `icon` — two-state controls, which listener a
  gesture reaches, drop-down selection, icon glyphs;
- `window`, `native_view`, `platform` — the windows a window manager records
  (in a `slotmap::SlotMap`), the native views embedded in them (ids are never
  reused), and the Windows platform plugin;
- `deep_link`, `keyboard`, `window_events`, `layout` — deep-link delivery, browser
  key names, Win32 message handling, and the whole-number part of layout.

Callbacks are held by the caller: operations that would fire one answer with
what it is due. Floating-point values that the core only carries are held as
`f32` bit patterns.

`app/` holds the widgets with their floating-point measurement and rendering,
the callbacks, and the platform code (Win32, the browser, GPU surfaces), built
on the framework's core crate `frame_core`.

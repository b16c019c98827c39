# glass_ui

Verified logic behind two pieces of the editor's UI.

- `src/text_input.rs`: which of the application, the embedded browser or the
  page's text input receives a keystroke, and the process message that carries
  whether the focused page element is editable.
- `src/panel.rs`: the native platforms panel's state: the detected Xcode
  project, its schemes, the run destinations, the selected scheme and
  destination, what is saved and restored across sessions, and the options a
  build or run starts with.

`app/` holds the gpui panel, the CEF message plumbing and persistence, which
call into the library.

# screenshot_tool_lib

The verified core of a desktop screenshot tool (capture the screen, select a
region on a frozen frame, copy it to the clipboard and save it as PNG), written
in Verus.

- `src/` is the library. Every function in it carries a contract that Verus
  proves: the capture pipeline state machine (`orchestrator`), the error
  contract shared with the frontend (`error`), capture-mode parsing and the
  IPC models (`capture`), cropping, black-frame detection, file naming, the
  captures directory and PNG encoding (`image_processor`), the file-size text
  and notification texts (`notification`), and the errors and names of the
  clipboard and storage steps (`clipboard`, `storage`). Calls into `rand`,
  `chrono`, `dirs`, `uuid` and `image` stand behind small trusted wrappers
  whose contracts say what the library relies on.
- `app/` is the Tauri host: screen capture with xcap, the overlay window, the
  clipboard, file writes, notifications, the IPC commands and the serde forms
  of the library's types. It performs the outside work and leaves every
  decision to the library.
- `tests/` exercises the library on concrete values.

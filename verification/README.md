# macros

A desktop editor for input macros (waits, scripts, key presses, mouse moves,
scrolls), with its core verified in Verus.

- `src/` is the verified library: the macro model (`model`, `input`), the
  names of keys and mouse buttons and the conversions to and from them
  (`keys`, `mouse`, `ui_utils`), the instruction kinds (`instruction_utils`),
  edits of the stored list of macros (`config`), the editor's state machine and
  the messages its widgets send (`editor`), the step-by-step replay of a macro
  (`runner`), the shared loop flag (`loop_control`) and text helpers (`text`).
- `app/` is the COSMIC application around it: widgets, configuration storage,
  the input backend (enigo), scripts, sleeping and worker threads.
- `tests/` exercises the library on concrete values.

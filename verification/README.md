# Custom cursor overlay

A transparent, frameless, always-on-top window that covers a target window and
follows it. Inside a region of that window it owns the hit-testing and shows a
custom cursor, which the app below can then not override; pointer input is
replayed to that app. Outside the region, while a pen is in use, and without a
target the overlay is click-through.

```
custom-cursor-overlay --window "<window title substring>"
```

| Key                  | Effect                          |
| -------------------- | ------------------------------- |
| `Ctrl+Shift+C`       | overlay on / off                |
| `Ctrl+Shift+R`       | edit the region with the mouse  |
| `Ctrl+Shift+O`       | show the region outline         |
| `Ctrl+Shift+0`       | region = whole window           |
| `Ctrl+Shift+Q`, `Esc`| quit                            |

## Layout

`src/` is the library. It decides and computes; Verus proves its contracts.

| Module           | What it holds                                                   |
| ---------------- | --------------------------------------------------------------- |
| `app`            | application state: following, ownership of the cursor, editing  |
| `region`         | the region rectangle, its handles and drags                     |
| `render`         | what is drawn, and the pixels of the surface                    |
| `cursor`         | the cursor bitmap                                               |
| `input`          | input events, their snapshot, the HID report decoder            |
| `coalescer`      | merging of events between two flushes                           |
| `hooks`          | mouse hook, keyboard hook and raw input packets                 |
| `platform`       | window search, styles, cursor image, replay of input            |
| `pointer_filter` | the state machine that holds the cursor through pen transitions |
| `args`           | the command line                                                |
| `coord`          | the arithmetic that geometry is written in                      |
| `config`, `win32`| constants                                                       |

`app/` is the program around it: the window, the Win32 calls, the threads and
the floating-point number types. `tests/` runs the library.

Functions with a `requires` clause leave it to their caller to meet it; `app/`
tests the condition before each such call.

# desktop_icons

The verified core of a Windows desktop toy that lifts the desktop icons into
rows at the top of each monitor, lets them rain down with gravity, or feeds
them one by one to the Recycle Bin, and finally puts the original layout back.

- `src/` is the library, checked by Verus:
  - `geometry`: points, work areas and the top-row slot of every icon;
  - `shuffle`: the XorShift shuffle and the Recycle Bin drop order;
  - `animation`: the alternation of the two animations;
  - `layout`: the folder flags and view options that are switched off and
    restored, and the restore bookkeeping;
  - `shell`: the decisions taken on the results of Shell calls;
  - `control`: console events and the exit hotkey;
  - `desktop`: the checks on the enumerated desktop items;
  - `error`, `guid`: the error type and COM GUIDs.
- `app/` is the program: COM and Win32 calls, threads, timing and the
  floating-point physics, calling the library for every decision.
- `tests/` runs the library on concrete values.

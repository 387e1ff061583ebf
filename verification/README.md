# hachimi

Verified rules behind the game hook's window, cursor and plugin handling.

- `src/` is the verified library (Verus):
  - `geometry`: window rectangles and the edges a user drags.
  - `sizing`: which path a window drag takes and how the rectangle is rebuilt.
  - `messages`: routing of window messages and the CBT minimize guard.
  - `hooks`: the CBT hook slot and the queue of deferred size messages.
  - `window`: window title, orientation and cursor-scaling decisions.
  - `plugins`: plugin file names, the plan that syncs the private plugin
    directory with the external one, and the choice of loadable plugins.
- `app/` is the unverified glue: Win32 calls, the floating-point sizing and
  cursor arithmetic, file system work and dynamic loading.
- `tests/` runs the library on concrete values.

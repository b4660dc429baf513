# surfman

OpenGL contexts on Windows through WGL, verified with Verus.

- `src/` decides. Creating and destroying contexts, making them current, attaching surfaces and
  loading WGL extensions are operations that ask for one call into the system at a time. The
  contract of each fixes all its calls, their order and arguments, and its result, for every
  sequence of replies. `src/laws/` proves what follows for operations as a whole.
- `app/` calls. It makes the Win32 and WGL calls that operations ask for, and leaves windows,
  surfaces and OpenGL function tables to an implementation of its `Platform` trait.
- `tests/` plays operations against scripted replies.

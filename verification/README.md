# xgameruntime

A verified library of the logic behind a replacement for the GDK game
runtime (`xgameruntime.dll`): the asynchronous block protocol, task queues,
the reference count that loads and unloads the delegated runtime library,
which object serves a runtime class, what the runtime's objects answer, and
the data transformations of its tools (Xbox Live profile lists, the Rust
declarations read from the GDK documentation and laid out in vtables, the
input test window's message log).

- `src/` is verified with Verus; every public function states its result in
  its contract, and the properties that relate several calls are stated and
  proved as `law_*` proof functions.
- `tests/` runs the library on concrete values.
- `app/` is ordinary Rust around the library: reading `MicrosoftGame.config`,
  the Xbox Live web calls, the game save folders, and printing interface
  declarations from the GDK documentation.

The calls into `regex`, and the few `std` functions that have no
specification in `vstd`, stand behind small wrappers whose contracts are
trusted; everything else is proved.

# hyprcrop_platform

The platform layer of a screenshot tool for Hyprland and MangoWM, with its
decisions in a verified library.

- `src/domain`: errors, shared types, text building.
- `src/platform/capture`: driving a Wayland event queue, reading `wl_shm` pixels,
  laying out shared-memory buffers.
- `src/platform/system`: selecting the compositor, exchanging requests with
  MangoWM, and turning replies into monitors and windows.
- `app`: sockets, event queues, shared memory and the shapes of JSON replies.
- `tests`: the library from outside.

The library performs no input or output. Where work and decisions alternate, it
is a step function: the caller carries out an action, reports the outcome, and is
told what follows.

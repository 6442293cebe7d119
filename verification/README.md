# a10

The logic of a low-level asynchronous I/O library for io_uring (Linux) and
kqueue (the BSDs and macOS), verified with Verus.

* `src/` is the library. Every function states what it does in `requires` and
  `ensures` and Verus proves it; the laws that relate several functions are
  public proof functions (`lemma_*`). Submissions, completions and kqueue
  events are plain values: pointers to buffers and paths are passed as their
  addresses.
* `tests/` runs the library on concrete values.
* `app/` makes the system calls around the library: setting up and entering
  an io_uring and reading its completions, `statx(2)` and the formatting of
  metadata, and inotify watches. The library's system constants are those
  of x86-64 Linux; `app/` does not build for a target whose `libc` gives
  other values.

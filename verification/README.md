# ape

The Linux system-call layer of an APE process on the Glenda microkernel,
with its logic verified by Verus.

- `src/` is the verified library: decoding and dispatching system calls,
  the per-process state (ids, sessions, identity, descriptor table, heap
  break and mappings, signal dispositions and masks), path resolution inside
  a changeable root, the byte layouts handed to callers (`struct stat`,
  `linux_dirent64`, `struct utsname`, `struct sigaction`), and the decisions
  of the APE service. Laws that span several calls are stated and proved in
  `src/laws.rs`, `src/path_laws.rs` and `src/signal.rs`.
- `app/` is the daemon around it: the receive loop, the spin lock that
  guards the process-wide runtime, reads and writes of the caller's memory,
  and the calls into Glenda's file server and APE service.
- `tests/` runs the library on concrete values.

The target is riscv64 Linux; system-call numbers in `src/abi.rs` are that
target's, and the error numbers are checked against `linux-raw-sys` by the
tests.

# user_lib

User-space support library for a MIPS teaching kernel, verified with Verus.

- `src/` is the verified library. `layout` holds the address-space layout,
  virtual addresses and page-table-entry flags; `page` the page table entry;
  `env` environment records; `ipc` message passing; `syscall` the requests
  for each system call; `fork` copy-on-write page sharing, fault resolution
  and the step-by-step `fork` state machine. The library never performs a
  system call itself: it builds each request, and decides what to do with
  each reply.
- `app/` is the runtime around it: the kernel entry point `msyscall`, the
  in-memory layout of the kernel's records, the loops that drive `fork`,
  `ipc_send`, `ipc_recv` and `wait`, the copy-on-write fault handler, and a
  `bitflags` form of the flags.
- `tests/` runs the library on concrete values.

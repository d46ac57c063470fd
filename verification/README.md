# mmio

Read-only, file-backed memory maps, with the arithmetic and the decisions
proved by Verus.

- `src/` is the verified library. `shape` aligns a requested file range to
  the system's granularity; `option` is the mapping configuration (a
  builder) and finds the length of the view; `unix` turns a configuration
  into the `mmap(2)` request, builds the mapping from the address the system
  returns, and gives the exact arguments of `munmap(2)`, `madvise(2)`,
  `mlock(2)` and `munlock(2)`; `windows` does the same for
  `CreateFileMappingW` / `MapViewOfFile`; `mm` is the mapping as its users
  see it; `error` holds the errors found before any system call.
- `app/` makes the system calls with those values (through `libc` and
  `windows-sys`), reads file lengths, owns the mappings and exposes them as
  `&[u8]`.
- `tests/` runs the library on concrete requests and addresses.

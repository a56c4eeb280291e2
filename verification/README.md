# posix_conformance

A POSIX conformance suite for the PSE51/PSE52/PSE53 profiles of IEEE
1003.13-2003, split in two:

- `src/` is the library, verified with Verus:
  - `report`: the bookkeeping of checks and categories, the `Verdict` a
    check ends in, and the final summary;
  - `text`: the rendering of numbers and banners;
  - the decisions of the longest tests, each taking what the system calls
    returned: the TCP, UDP and Unix-domain data flows (`sockets`) and the
    `prlimit64` test (`limits`) as step functions from state and result to
    verdicts and next call, including which descriptors to close and which
    limit to restore; the socket-option, vectored I/O and standard-descriptor
    checks (`io_verdicts`); the mmap and mprotect checks and the page pattern
    (`memory`);
  - wait-status decoding (`wait_status`), `getdents64` record parsing
    (`dirent`), signal and descriptor sets (`sigset`, `fdset`), time values
    (`kernel_types`), abstract Unix socket addresses (`sockaddr`) and the
    smaller judgements of the other tests (`checks`).

  Each function carries a contract; the public proof functions state the
  laws the suite relies on (a summary that ends with the verdict and the
  `SUMMARY: P passed, F failed` line, exit code 0 exactly when no category
  failed, a failed setup step reporting one failure and ending its test,
  every descriptor a flow holds closed once, `RLIMIT_CORE` restored to the
  value read, banners centred, numbers rendered so they read back, status
  words decoded as encoded).
- `app/` is the program: raw x86-64 system calls issued as the library's
  flows direct, the memory accesses, the checks of the shorter tests, and
  the writes of the library's text to standard output.
- `tests/` runs the library on concrete values.

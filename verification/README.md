# safer_ring

The verified core of a memory-safe io_uring wrapper: the ownership model of
buffers handed to the kernel, operation state machines, buffer pools and
registries, kernel feature detection, configuration, logging and metrics, and
the decisions of the io_uring and epoll backends. Every function in `src/` is
proved by Verus against its `requires`/`ensures` contract, except the thin
wrappers around std and the outside crates, marked
`#[verifier::external_body]`, whose doc comments say what their contracts
claim of the code they call.

Layout:

- `src/` — the library, verified. Public proof functions (`lemma_*`) state
  the laws that hold across functions.
- `tests/` — tests of the library on concrete values.
- `app/` — ordinary Rust around the library: reading system files, kernel
  probing, system calls for the backends, aligned allocation, writing log
  lines, floating-point rates, and the error type with `std::error::Error`.

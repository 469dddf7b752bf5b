# fusecraft

A deterministic FUSE filesystem simulator. It mounts a virtual filesystem that
behaves like a flaky, latency-prone, bandwidth-limited store, reproducibly: every
decision is a function of the seed, the operation and its sequence number.

- `src/` is the library, verified with Verus. It decides and accounts: admission
  and queueing, fault and latency sampling, bandwidth accounts, size tiers,
  events, metrics, the directory layout, file contents, mount options and the
  validation of configurations. Clocks, sleeping and real-valued formulas stay
  outside; callers hand in what came out of them.
- `tests/` runs the library on concrete values, with the real outside crates.
- `app/` is the `fusecraft` program: command line, TOML files, threads, floating
  point and the FUSE session.

## Where to look

| Module | What it states |
|--------|----------------|
| `engine` | The lifecycle of an operation in six steps, and what every step keeps: each request runs, waits, has left exactly one event and one sample, or was abandoned because its own work panicked; whole runs are numbered call by call and can be replayed |
| `limiter` | Bounds on slots and queue, when a request is turned away, statistics that agree with what all callers hold, and the accounts of a token bucket: every byte is taken out once, and rate and burst bound what passes |
| `sampler` | Faults and latency bodies as functions of a key; keys that differ in one field have different seeds |
| `config` | Defaults, and validation that succeeds exactly on the valid configurations |
| `namespace`, `content` | Lookups, attributes and listings that agree with one another; synthetic bytes |
| `metrics`, `events` | One sample per completion, summaries in a fixed order |
| `fuse` | Replies to the kernel, mount options |
| `binary64` | Exact comparisons of `binary64` numbers by their bit patterns |

What the library takes on trust from outside crates is confined to a few small
functions, each with a comment that says what is claimed: random words from
`rand`, histograms from `hdrhistogram`, and the clock of the standard library.
Error numbers are those of Linux.

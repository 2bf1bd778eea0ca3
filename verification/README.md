# frameanchor

GPU interrupt-affinity tuning for Windows: a quick benchmark ranks the
physical cores as targets of the display adapter's interrupts, and the chosen
core is applied to the registry with a crash-safe journal and a verified
rollback.

- `src/` — the verified library (Verus): the candidate cores and their masks,
  the quick-test schedule and state machine, the capture step (policy under
  the journal, restarts, attempts and retries), the watched waits and window
  reports, the capture verdicts, the policy-change, restore, MSI and cleanup
  state machines with their laws,
  the apply gates, the PresentMon/ETW text parsers, asset digests, and the run
  state the front end reads.
- `tests/` — tests of the library.
- `app/` — the host side: JSON records, the registry back end interface and
  the drivers that run the state machines, the floating-point metrics and
  ranking, frame pacing of the workload, and the logon task.

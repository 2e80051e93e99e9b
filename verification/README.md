# jolt_testing

Replays the scripts of a CKB transaction inside the Jolt zkVM. The host fetches
a transaction over JSON-RPC, resolves its cells into a mock transaction, records
the syscalls of each script group, and hands the traces to the guest, which
replays the first group on a VERSION2 CKB-VM over W^X-guarded byte-addressed
memory, with the stack pointer at the top of its 4 MiB.

Layout:

- `src/` — the verified library (Verus). `guest/` holds the guest's memory
  model (`JoltMemory`, with its load/store laws), the exec-syscall override and
  the executor's checks; `tx_converter` plans the cell and header resolution of
  a transaction; `verifier_context` finds the programs of script groups; `verifier_setup`
  resolves a mock transaction, lists its script groups with their VM
  versions and finds a script's program among its resolved dependencies;
  `types` converts the host's proof context into the guest's; `rpc_client`
  builds the JSON-RPC requests and pairs batch answers with their requests;
  `collect_vm_creation` draws the VM spawn tree; `cli` holds the settings and
  `host` the driver's decisions, among them the list of traces kept for the
  script groups.
- `tests/` — tests of the library, run with the outside crates linked.
- `app/` — the program around the library: argument parsing, HTTP, the
  CKB-VM machine, trace collection and proving.

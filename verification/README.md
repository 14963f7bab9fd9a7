# catten

The decision-making core of the Catten kernel, written in Verus and proved against its
contracts: ACPI table parsing (MADT, MCFG, FADT, interrupt source overrides), interrupt
routing and I/O APIC redirection, PCI Express configuration space, capabilities and topology,
the PS/2 controller's initialization conversation, the per-processor and system schedulers,
the counting semaphore, mutex and reader-writer lock bookkeeping, deferred work queues and the
host services the ACPI interpreter calls.

Layout:

- `src/` is the verified library. Every public function states what it returns or changes;
  public `lemma_*` proof functions state the properties that span several calls.
- `tests/` runs the library on concrete inputs.
- `app/` is the kernel around the library: port and memory-mapped I/O, the global locks and
  scheduler state, device enumeration, the C entry points of the ACPI interpreter and its
  self-test. It performs the I/O that the library decides on.

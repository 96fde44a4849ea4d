# agent_ui

The decision logic of the agent panel and the branch-diff toolbar, written in
Verus with contracts and proofs.

- `src/tabs.rs` — the agent panel's tabs: opening, switching, removing tabs,
  the overlay (history, settings) and the tab title editor. Each operation is
  stated by a spec function over `PanelState` and returns the UI effects it
  needs, in order.
- `src/tab_laws.rs` — properties across operations: every operation keeps the
  panel well formed (at least one tab, the active tab exists), removals keep
  or hand over the active tab as stated, opening the settings twice closes
  them, toggling the title editor twice closes it.
- `src/tab.rs`, `src/tab_label.rs` — tabs, views, agents, tab labels and the
  tab bar.
- `src/timer.rs`, `src/decimal.rs` — the generation timer and its text.
- `src/turn_stats.rs` — the statistics and buttons under a thread.
- `src/branch.rs`, `src/branch_picker.rs` — branch names, the order the
  picker lists branches in, the picker's state and the toolbar.
- `app/` — spawning and killing child processes (I/O through `smol` and
  `libc`), outside the verified library.

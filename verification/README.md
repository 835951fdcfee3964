# lamb_daemon

The control plane of an always-on audio capture daemon: its lifecycle and retry
state, the scheduler of retries, the transactions that start, stop, reload and
recover capture, threshold and calibration requests, and the replies to clients.

* `src/` holds the rules, with contracts that Verus proves. Every public function
  is one step under the daemon's lock; devices, sockets, threads and files stay
  with the caller, which hands in plain values and carries out what it is told.
* `app/` runs the daemon around these rules: threads, the control socket, the wire
  format and the loops between the steps.
* `tests/` runs the rules on concrete values.

`src/laws.rs` states what holds across operations: that the scheduler never holds
work of an older operation, that a superseded operation changes nothing, that a
failed reload spares the running capture, that going down is final.

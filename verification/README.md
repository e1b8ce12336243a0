# openvmm

Verified parts of a virtual machine monitor: the synthetic network adapter and
its coordinator, an emulated network device with its driver, the manager of the
virtual function that accelerates a guest's network, the units whose states a
machine changes together, the options of the paravisor, and the description of
virtual machines for tests.

## Layout

- `src/` is the library. Every function states what it does, and Verus proves it.
  - `netvsp`: the synthetic adapter. `protocol`, `rndis` and `packet` are the
    messages; `negotiate`, `control`, `control_queue`, `oid` and `oid_set` answer
    the guest; `tx_packet`, `tx`, `tx_slots`, `rx`, `ring` and `worker` move packets;
    `guest_vf`, `coordinator` and `channels` decide about the virtual function,
    the queues and the channels; `state`, `stats` and `saved` are what is kept.
  - `gdma`, `gdma_defs`: the emulated device and the layout of its messages.
  - `mana_driver`: the requests of its driver.
  - `user_driver`: memory that is shared with a device.
  - `underhill`: the manager of the virtual function, its saved state, and the
    options of the paravisor.
  - `state_unit`: units that depend on each other, and operations over all of them.
  - `petri`: virtual machines for tests.
  - `wire`, `text`, `guid`: bytes, text and identifiers.
- `tests/` runs the library on concrete values.
- `app/` is the asynchronous and I/O side: tasks, channels, timers, files and the
  environment.

Code that waits is split in two. The library is a function from a state and an
event to the next state and what has to be done; `app/` does it and hands the
outcome back. A ring buffer is written through an `Outbox`, which knows how much
room is left and keeps what was sent in order.

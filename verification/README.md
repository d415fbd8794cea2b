# aetheros_kernel

The core of the AetherOS Nexus microkernel as a verified library: the
syscall dispatcher and the kernel state it works on (channel table, DMA
buffer registry, tick counter), the IPC channel layer, the V-Node side of a
channel, and the request logic of the system V-Nodes (VFS, file manager, DNS
resolver, socket API, network stack socket table, network bridge).

- `src/` is the library. Verus checks all of it; the functions that compute
  something carry contracts, and the laws of each part stand beside them as
  proof functions. The console and IRQ functions, `get_current_task` and
  `block_current_on_channel` are stubs with nothing to state (the console has
  no device, interrupts are not wired, and there is one task, which holds
  every capability but storage access), and paging set-up only logs.
- The kernel's channel table starts with every slot empty, and no syscall
  opens a channel: until channel creation exists, every IPC send from a
  V-Node is refused and every receive finds nothing. The IPC laws describe
  channels once they are open.
- `app/` is the runtime around it: the syscall entry over raw user memory,
  the postcard wire format of the IPC messages, the x86_64 set-up, and the
  V-Node event loops (including the smoltcp interface of the network stack).
- `tests/` runs the library on concrete values.

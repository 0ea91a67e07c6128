# tun (wintun backend)

A TUN device for Windows on top of the wintun driver, with its logic
verified in Verus.

- `src/` is the verified library: the adapter settings and the `netsh`
  arguments derived from a `Configuration` (`settings`, `address`, `text`),
  the device and its configuration rules (`device`), the queue over a
  driver session and what each of its operations does with what the
  session returned (`queue`, `copy`), the
  readiness wrappers and their framing parameters (`async_fd`,
  `async_device`, `codec`), and the reader/writer traits (`io`).
- `app/` holds what Verus does not see: the wintun session behind the
  queue's `PacketSession` trait and the other calls into the driver,
  the `netsh` process, `std::io` and tokio trait impls, and the stream codec.
- `tests/` exercises the library on concrete values.

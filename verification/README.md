# rawnet

Building blocks for working with raw and packet sockets on Linux, verified
with Verus.

- `src/` is the library. `mac_address` parses and formats MAC addresses;
  `ethernet_address` holds interface names and Ethernet addresses; `packet`
  reads and writes ARP packets and describes Ethernet frames; `socket` holds
  the socket error types, what the results of the socket system calls mean,
  and the socket addresses they take. Each function states its result in its
  contract, and the laws (text and byte round trips, code tables) are proof
  functions beside them.
- `app/` holds what talks to the operating system (the sockets, through
  `libc`) and copies of the library's types that carry `Display`, the hex
  formatting traits and `thiserror`'s `Error`.
- `tests/` exercises the library on concrete values.

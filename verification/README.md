# dcontainer

A small container runtime: a daemon that creates bridges, veth pairs,
network and mount namespaces and containers, and a command line that sends
it requests over TCP.

- `src/` is the library, verified with Verus: parsing of what is typed at the
  prompts (`text`, `ipv4`, `cli`), the framing of requests (`protocol`), the
  records the daemon keeps and how they change (`store`, `container`,
  `namespaces`, `brain`), and the properties that tie these together (`laws`).
- `app/` is the program around it: the menu and prompts, the TCP socket, the
  JSON files, netlink and the system calls.
- `tests/` runs the library on concrete values.

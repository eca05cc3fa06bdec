# rtl_tcp

A client for the rtl_tcp protocol, which streams I/Q samples from an RTL-SDR device over TCP.

- `src/` is the library, verified with Verus. It performs no I/O: it says which packets to write,
  what a handshake or a read means, and what to do next.
- `app/` runs the library on TCP streams, threads and channels, and turns samples into complex
  numbers.
- `tests/` runs the library on concrete values.

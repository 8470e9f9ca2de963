# byebyedpi_core

The core of a program that recognises interference with network traffic and
works around it: the rules by which probes are judged, packets are checked,
routed, rewritten and scheduled, and proxies are spoken to. The rules are
written in Rust and verified with Verus; the parts that open sockets, files and
threads are ordinary Rust around them.

* `src/probe` builds and reads the messages of the probes and turns what they
  saw into a verdict. `decision_engine` is where the signals come together;
  `ProbeSession` in `probe.rs` gives the order of the phases.
* `src/engine` decides what becomes of a captured packet: `dispatch` holds the
  gates, `journey` takes a packet through them, `outbound` keeps track of
  connections, `transmit` turns decisions into what is sent, `delayed_inject`
  holds packets back, `stats` counts, `settings` holds the active profiles.
* `src/proxy` holds the redirect table, the proxy pool and the stand-in
  addresses, the SOCKS5 and HTTP proxy dialogues, the tunnel (`wire_tunnel` its
  protocol, `awg_obfuscator` its disguise, `awg_tunnel` what goes in and out)
  and the client of the proxy service.
* `src/infra` holds the marks on injected packets, the sentinel, the control
  pipe and the driver service.
* `src/wire`, `text`, `checksum`, `base64`, `ip` and `packet_invariants` are
  what the others are made of.

Each function states in its contract what it returns; what holds of several
functions together is stated by public proof functions beside them. Calls into
other crates go through small functions marked `external_body`, whose contracts
are taken for granted and say in their comments what they rest on.

Scores, confidences and contributions are held in millionths, round-trip times
in microseconds, timeouts in milliseconds.

`app/` performs the input and output and hands the library what it saw;
`app/os_windows.rs` is what only Windows has: the capture driver, its service,
raw sockets and the pipe.
`tests/` runs the library on examples.

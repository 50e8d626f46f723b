# tickradio

Two ESP32 boards talk over bare 802.11 data frames, without an operating system. The sender
cycles through a table of messages and transmits the index of one at a time; the receiver
shows the message and echoes the frame; the sender goes on when it hears the echo. Each board
runs a heartbeat, a radio and a display task on a round-robin executor.

- `src/` is the verified core: frames, ticks and waits, ready flags and the executor, and the
  tasks as state machines. It touches no hardware and holds nothing that is assumed.
- `app/` is the firmware around it: interrupts, futures and drivers.
- `tests/` runs the core.

The promises about the whole are proof functions named `law_...`; those about the two boards
together stand in `src/exchange.rs`.

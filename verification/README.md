# rtlsdr-pure

An RTL2832U + R820T/R828D software-defined-radio driver whose logic is verified with Verus.

- `src/` is the verified library. Every driver operation (open, sample rate, tuning, gain,
  bandwidth, frequency correction, AGC, test mode, FIFO reset, sample reads) is a state
  machine over the dongle's state: it asks for batches of register commands and is resumed
  with their outcome. A `Runner` expands a batch into USB control and bulk transfers, one at
  a time, and checks each reply. The R82xx tuner keeps a shadow of its registers; its PLL,
  filter calibration, multiplexer and gain programming are machines of their own.
  - `r82xx.rs`: tuner register tables, shadow, PLL/gain/filter arithmetic, tuner machines.
  - `rtl2832.rs`: known devices, demodulator arithmetic, the dongle state and its operations.
  - `rtl_usb.rs`: register encodings, commands, transfers and the runner.
  - `error.rs`: errors and their messages; `text.rs`: decimal and hexadecimal text.
  - `laws.rs`: properties that span several functions, proved.
- `app/` performs the transfers with `cross_usb` (native USB or WebUSB) and gives the async
  API, including device discovery and the float I/Q conversion.
- `tests/` drive the library against an in-memory dongle.

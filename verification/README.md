# openpulse-repeater

The decision core of a cross-band repeater for digital amateur radio, written and proved in Verus.
A burst heard on one rig is decoded and transmitted again through a second one, which the repeater
keys, identifies and releases.

- `src/` is the verified library. It does no I/O: it says what is to be done next, and is told how
  that went.
  - `ptt_builder`, `serial`, `retry`: which keying backend the configuration asks for, how a serial
    line is driven, and what happens while a backend is out of reach.
  - `shared_ptt`: who holds the key, and when the watchdog takes it away.
  - `config`, `relay`, `repeater`: the repeater, as a machine of stages.
  - `one_relay`, `laws`: what one relay comes to, and what holds over any course of events.
  - `silence`: the repeater and the key together, and how long a silent key lasts.
- `app/` runs the library: it owns the serial port, the watchdog thread, the clock and the burst
  queue, and takes the modem, the identification timer and the other backends from the program that
  embeds it.
- `tests/` runs the library on concrete stations.

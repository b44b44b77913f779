# aerothesis

A physically modelled wind synthesizer. A reed (or the player's lips) is a damped
mass-spring oscillator driven by the air flowing through its gap; its displacement
excites an air column, modelled as a delay line whose echo returns after one round
trip through the pipe, reflected with a sign that depends on the pipe's far end.

- `src/` is the verified library: the resonant delay line and its echo law
  (`delay_line.rs`), the reed and pipe kinds with the force sign, reflection sign and
  round trip they impose (`instrument.rs`), and the routing of MIDI events to breath,
  bite and retuning (`control.rs`).
- `app/` holds the floating-point reed and fluid model, the plugin glue for the host
  framework, and a command-line simulation that plots the waveform and spectrum.
- `tests/` exercises the library on concrete values.

# emu audio drivers

Audio output for emulators on Apple's default output unit.

- `src/` is the verified library: the component and stream format the
  drivers ask for, the order of the calls that bring the unit up and shut it
  down and what each outcome leads to, when a unit is started or stopped as
  output is enabled or disabled, and the layout of interleaved stereo render
  buffers.
- `app/` is the program around it: it makes the system calls in the order
  the library decides, holds the unit handles and render callbacks, and plays
  a sine tone.

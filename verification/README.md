# arplus

The control logic of an arpeggiating string synthesizer module, verified
with Verus.

- `src/` is the verified library: the chord and scale libraries, the
  arpeggiator and its modes, the LED display and its requests, the panel
  inputs and parameters, the scale offsets, the calibration sequences of
  the controller, the persisted save and its checksummed store, the ring
  buffer of the delay lines and the rotation of strings among notes.
  Contracts are stated over spec functions and views; the laws that span
  several calls (the save read back from its bytes, a valid store passing
  its checks and read back unchanged, the walks of the arpeggiator modes,
  what a ring buffer reads back, how long a display page lasts) are public
  proof functions.
- `app/` holds the floating-point side around it: pitches and frequencies,
  quantization of V/oct signals, smoothing of pots and CVs, and the
  filters of the signal path.
- `tests/` exercises the library on concrete values.

The checksum of the store is computed by the `crc` crate, random draws come
from `fastrand`, and chords and scales are kept in `heapless` vectors; each
call into those crates goes through a small trusted wrapper whose contract
states what the call does.

pub mod arpeggiator;
pub mod bounded;
pub mod calibration;
pub mod chords;
pub mod controller;
pub mod display;
pub mod display_request;
pub mod dsp;
pub mod inputs;
pub mod parameters;
pub mod random;
pub mod save;
pub mod scales;
pub mod ring_buffer;

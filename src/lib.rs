//! Cockpit radio logic of an aircraft simulation: the audio control panel's
//! knobs and switches, and navigation receivers that key their station
//! identifier in Morse code, frame by frame.

pub mod audio;
pub mod decoder;
pub mod morse;
pub mod receivers;

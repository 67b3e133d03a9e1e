//! Protocol layer of a grid MIDI control surface: key numbering, LED colour
//! codes, message classification, the media panel and the life board that the
//! pads drive, and the text that the media and volume tools exchange.

pub mod automaton;
pub mod event_loop;
pub mod midi;
pub mod panel;
pub mod pattern;
pub mod services;
pub mod text;
pub mod utils;

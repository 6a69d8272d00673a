//! Streaming decoder for Standard MIDI Files.
//!
//! A file is handed over as bytes. The decoder validates the header chunk,
//! walks the track chunks one after the other and yields, one at a time, the
//! events that matter to an 88-key keyboard: key presses and releases and the
//! two pedals, each tagged with the time since the event before it.

pub mod chunk;
pub mod clock;
pub mod error;
pub mod event;
pub mod io;
pub mod key;
pub mod sequencer;
pub mod wave;

pub use crate::error::Error;
pub use crate::event::{Event, EventKind, MidiEvent};
pub use crate::io::{BigEndian, FromStream, LittleEndian, Stream, VarInt};
pub use crate::key::{Key, Keyboard, Note, Octave, Pedal, Semitone, Tone};
pub use crate::sequencer::{midi, MidiFile};

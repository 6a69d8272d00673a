//! Events, and the decoder that reads one event at the cursor.

use vstd::prelude::*;
use crate::error::Error;
use crate::io::{lemma_vlq_bounds, read_u8_at, vlq_at, BigEndian, Stream};
use crate::key::{on_keyboard, Keyboard, Note, Pedal, NOTE_MIN};

verus! {

/// The controller number of the damper pedal.
pub const DAMPER_CONTROLLER: u8 = 0x40;

/// The controller number of the soft pedal.
pub const SOFT_CONTROLLER: u8 = 0x43;

/// The meta event type that ends a track.
pub const META_END_OF_TRACK: u8 = 0x2F;

/// The meta event type that sets the tempo.
pub const META_TEMPO: u8 = 0x51;

/// What happened on the keyboard.
#[derive(Clone, Copy, Debug, PartialEq, Eq, Structural)]
pub enum EventKind {
    /// A key went down, with a velocity that is not 0.
    KeyPressed { note: Note, velocity: u8 },
    /// A key went up.
    KeyReleased { note: Note },
    /// The damper pedal moved to a new value.
    DamperPedal { value: u8 },
    /// The soft pedal moved to a new value.
    SoftPedal { value: u8 },
}

/// A change on the keyboard and the time since the event before it.
#[derive(Clone, Copy, Debug, PartialEq, Eq, Structural)]
pub struct Event {
    /// Microseconds since the event before; 0 for events that fall together.
    pub delta: u64,
    /// What happened.
    pub kind: EventKind,
}

impl EventKind {
    /// What holds of every event that the decoder lets through: its note is
    /// one of the 88 keys, and a key that goes down has a velocity.
    pub open spec fn wf(self) -> bool {
        match self {
            EventKind::KeyPressed { note, velocity } => on_keyboard(note.value()) && velocity >= 1,
            EventKind::KeyReleased { note } => on_keyboard(note.value()),
            _ => true,
        }
    }

    /// The keys after the event: a press sets the velocity of its key, a
    /// release sets it to 0, a pedal leaves the keys alone.
    pub open spec fn keys_after(self, keys: Seq<u8>) -> Seq<u8> {
        match self {
            EventKind::KeyPressed { note, velocity } => keys.update(note.value() - NOTE_MIN, velocity),
            EventKind::KeyReleased { note } => keys.update(note.value() - NOTE_MIN, 0),
            _ => keys,
        }
    }

    /// The pedals after the event: a pedal event sets the value of its
    /// pedal, a key leaves the pedals alone.
    pub open spec fn pedals_after(self, pedals: Seq<u8>) -> Seq<u8> {
        match self {
            EventKind::DamperPedal { value } => pedals.update(Pedal::Damper.ordinal(), value),
            EventKind::SoftPedal { value } => pedals.update(Pedal::Soft.ordinal(), value),
            _ => pedals,
        }
    }
}

impl Event {
    /// Brings the keyboard up to date with the event and returns the time
    /// since the event before, in microseconds.
    pub fn apply(self, keyboard: &mut Keyboard) -> (delta: u64)
        ensures
            delta == self.delta,
            final(keyboard).keys() == self.kind.keys_after(old(keyboard).keys()),
            final(keyboard).pedals() == self.kind.pedals_after(old(keyboard).pedals()),
    {
        match self.kind {
            EventKind::KeyPressed { note, velocity } => keyboard.set_key(note, velocity),
            EventKind::KeyReleased { note } => keyboard.set_key(note, 0),
            EventKind::DamperPedal { value } => keyboard.set_pedal(Pedal::Damper, value),
            EventKind::SoftPedal { value } => keyboard.set_pedal(Pedal::Soft, value),
        }
        self.delta
    }
}

/// One event of a track as the decoder classifies it.
#[derive(Clone, Copy, Debug, PartialEq, Eq, Structural)]
pub enum MidiEvent {
    /// A change on the keyboard, with the ticks since the event before.
    Keyboard(EventKind, u64),
    /// A new tempo, in microseconds per quarter note.
    Tempo(u32),
    /// The end of the track.
    EndOfTrack,
    /// An event that is well-formed and of no interest; its bytes are gone.
    Unsupported,
}

/// What one event left behind: the event, the position after its last byte
/// and the status now in force.
pub struct Decoded {
    pub event: MidiEvent,
    pub next: int,
    pub status: u8,
}

/// A note-off message as an event: a release for a note on the keyboard,
/// nothing for any other.
pub open spec fn note_off(delta: u64, note: u8) -> MidiEvent {
    if on_keyboard(note) {
        MidiEvent::Keyboard(EventKind::KeyReleased { note: Note::of(note) }, delta)
    } else {
        MidiEvent::Unsupported
    }
}

/// A note-on message as an event. Velocity 0 stands for a release.
pub open spec fn note_on(delta: u64, note: u8, velocity: u8) -> MidiEvent {
    if !on_keyboard(note) {
        MidiEvent::Unsupported
    } else if velocity == 0 {
        MidiEvent::Keyboard(EventKind::KeyReleased { note: Note::of(note) }, delta)
    } else {
        MidiEvent::Keyboard(EventKind::KeyPressed { note: Note::of(note), velocity }, delta)
    }
}

/// A control change as an event: the two pedals count, no other controller
/// does.
pub open spec fn control_change(delta: u64, controller: u8, value: u8) -> MidiEvent {
    if controller == DAMPER_CONTROLLER {
        MidiEvent::Keyboard(EventKind::DamperPedal { value }, delta)
    } else if controller == SOFT_CONTROLLER {
        MidiEvent::Keyboard(EventKind::SoftPedal { value }, delta)
    } else {
        MidiEvent::Unsupported
    }
}

/// The status that governs the event whose first byte after the delta time is
/// at `pos`, and where its data start. A byte with the top bit set is a new
/// status and is taken; any other byte is data already, and the status before
/// stays in force.
pub open spec fn status_at(s: Seq<u8>, pos: int, running: u8) -> Result<(u8, int), Error> {
    match read_u8_at(s, pos) {
        Err(e) => Err(e),
        Ok(b) => if b >= 0x80 {
            Ok((b, pos + 1))
        } else {
            Ok((running, pos))
        },
    }
}

/// The event of a channel message with two data bytes at `pos`.
pub open spec fn two_bytes_at(s: Seq<u8>, pos: int, status: u8, delta: u64) -> Result<
    (MidiEvent, int),
    Error,
> {
    if !(0 <= pos && pos + 2 <= s.len()) {
        Err(Error::Io)
    } else if status < 0x90 {
        Ok((note_off(delta, s[pos]), pos + 2))
    } else if status < 0xA0 {
        Ok((note_on(delta, s[pos], s[pos + 1]), pos + 2))
    } else if 0xB0 <= status < 0xC0 {
        Ok((control_change(delta, s[pos], s[pos + 1]), pos + 2))
    } else {
        Ok((MidiEvent::Unsupported, pos + 2))
    }
}

/// The tempo in the three bytes at `pos`, a big-endian 24-bit number.
pub open spec fn tempo_at(s: Seq<u8>, pos: int) -> Result<(MidiEvent, int), Error> {
    if 0 <= pos && pos + 3 <= s.len() {
        Ok((MidiEvent::Tempo((s[pos] * 0x1_0000 + s[pos + 1] * 0x100 + s[pos + 2]) as u32), pos + 3))
    } else {
        Err(Error::Io)
    }
}

/// What skipping `len` bytes from `pos` gives: an event of no interest, or
/// a failure where the bytes end first.
pub open spec fn skip_at(s: Seq<u8>, pos: int, len: u64) -> Result<(MidiEvent, int), Error> {
    if 0 <= pos && pos + len <= s.len() {
        Ok((MidiEvent::Unsupported, pos + len))
    } else {
        Err(Error::Io)
    }
}

/// The meta event whose type byte is at `pos`.
pub open spec fn meta_at(s: Seq<u8>, pos: int) -> Result<(MidiEvent, int), Error> {
    match read_u8_at(s, pos) {
        Err(e) => Err(e),
        Ok(kind) => match vlq_at(s, pos + 1) {
            Err(e) => Err(e),
            Ok((len, data)) => if kind == META_END_OF_TRACK {
                if len == 0 {
                    Ok((MidiEvent::EndOfTrack, data))
                } else {
                    Err(Error::MalformedMetaEvent)
                }
            } else if kind == META_TEMPO {
                if len == 3 {
                    tempo_at(s, data)
                } else {
                    Err(Error::MalformedMetaEvent)
                }
            } else {
                skip_at(s, data, len)
            },
        },
    }
}

/// The system-exclusive event whose length is at `pos`.
pub open spec fn sysex_at(s: Seq<u8>, pos: int) -> Result<(MidiEvent, int), Error> {
    match vlq_at(s, pos) {
        Err(e) => Err(e),
        Ok((len, data)) => skip_at(s, data, len),
    }
}

/// The event under `status` whose data start at `pos`.
///
/// The channel in the low four bits of a channel status does not count. A
/// status that does not say how long its event is fails with `Parse`: that
/// is any byte under 0x80, and 0xF1 to 0xFE but for 0xF7.
pub open spec fn body_at(s: Seq<u8>, pos: int, status: u8, delta: u64) -> Result<
    (MidiEvent, int),
    Error,
> {
    if status < 0x80 {
        Err(Error::Parse)
    } else if status < 0xC0 || 0xE0 <= status < 0xF0 {
        two_bytes_at(s, pos, status, delta)
    } else if status < 0xE0 {
        skip_at(s, pos, 1)
    } else if status == 0xFF {
        meta_at(s, pos)
    } else if status == 0xF0 || status == 0xF7 {
        sysex_at(s, pos)
    } else {
        Err(Error::Parse)
    }
}

/// The event that starts at `pos` while `running` is the status in force:
/// a delta time, a status byte where one is written, and the data that the
/// status calls for.
pub open spec fn decode_at(s: Seq<u8>, pos: int, running: u8) -> Result<Decoded, Error> {
    match vlq_at(s, pos) {
        Err(e) => Err(e),
        Ok((delta, after_delta)) => match status_at(s, after_delta, running) {
            Err(e) => Err(e),
            Ok((status, data)) => match body_at(s, data, status, delta) {
                Err(e) => Err(e),
                Ok((event, next)) => Ok(Decoded { event, next, status }),
            },
        },
    }
}

/// An event that decodes takes at least one byte and none past the end, its
/// delta time has at most 35 bits, and a tempo it sets has at most 24.
pub proof fn lemma_decode_bounds(s: Seq<u8>, pos: int, running: u8)
    requires
        decode_at(s, pos, running) is Ok,
    ensures
        ({
            let d = decode_at(s, pos, running)->Ok_0;
            &&& 0 <= pos < d.next <= s.len()
            &&& d.event matches MidiEvent::Keyboard(_, delta) ==> delta < 0x8_0000_0000
            &&& d.event matches MidiEvent::Tempo(tempo) ==> tempo < 0x100_0000
        }),
{
    lemma_vlq_bounds(s, pos);
    let (delta, after_delta) = vlq_at(s, pos)->Ok_0;
    let (status, data) = status_at(s, after_delta, running)->Ok_0;
    if status == 0xFF {
        lemma_vlq_bounds(s, data + 1);
    } else if status == 0xF0 || status == 0xF7 {
        lemma_vlq_bounds(s, data);
    }
}

/// A keyboard event that decodes is about one of the 88 keys, and a press
/// has a velocity: a note off the keyboard never shows as a keyboard event.
pub proof fn lemma_decoded_kind_wf(s: Seq<u8>, pos: int, running: u8)
    requires
        decode_at(s, pos, running) is Ok,
    ensures
        decode_at(s, pos, running)->Ok_0.event matches MidiEvent::Keyboard(kind, _) ==> kind.wf(),
{
    let (delta, after_delta) = vlq_at(s, pos)->Ok_0;
    let (status, data) = status_at(s, after_delta, running)->Ok_0;
    if 0 <= data && data + 2 <= s.len() {
        Note::lemma_value_of(s[data]);
    }
}

impl MidiEvent {
    /// Classifies a note-off message.
    pub fn note_off(delta: u64, note: u8) -> (event: MidiEvent)
        ensures
            event == note_off(delta, note),
    {
        match Note::new(note) {
            Some(note) => MidiEvent::Keyboard(EventKind::KeyReleased { note }, delta),
            None => MidiEvent::Unsupported,
        }
    }

    /// Classifies a note-on message. Velocity 0 stands for a release.
    pub fn note_on(delta: u64, note: u8, velocity: u8) -> (event: MidiEvent)
        ensures
            event == note_on(delta, note, velocity),
    {
        match Note::new(note) {
            Some(note) => if velocity == 0 {
                MidiEvent::Keyboard(EventKind::KeyReleased { note }, delta)
            } else {
                MidiEvent::Keyboard(EventKind::KeyPressed { note, velocity }, delta)
            },
            None => MidiEvent::Unsupported,
        }
    }

    /// Classifies a control change.
    pub fn control_change(delta: u64, controller: u8, value: u8) -> (event: MidiEvent)
        ensures
            event == control_change(delta, controller, value),
    {
        if controller == DAMPER_CONTROLLER {
            MidiEvent::Keyboard(EventKind::DamperPedal { value }, delta)
        } else if controller == SOFT_CONTROLLER {
            MidiEvent::Keyboard(EventKind::SoftPedal { value }, delta)
        } else {
            MidiEvent::Unsupported
        }
    }

    /// Skips `len` bytes of an event that is of no interest.
    fn skip(stream: &mut Stream, len: u64) -> (r: Result<MidiEvent, Error>)
        ensures
            final(stream).bytes() == old(stream).bytes(),
            match r {
                Ok(event) => skip_at(old(stream).bytes(), old(stream).offset() as int, len) == Ok::<
                    (MidiEvent, int),
                    Error,
                >((event, final(stream).offset() as int)),
                Err(e) => skip_at(old(stream).bytes(), old(stream).offset() as int, len) == Err::<
                    (MidiEvent, int),
                    Error,
                >(e),
            },
    {
        stream.seek_forward(len)?;
        Ok(MidiEvent::Unsupported)
    }

    /// Reads the two data bytes of a channel message and classifies it.
    fn read_two_bytes(stream: &mut Stream, status: u8, delta: u64) -> (r: Result<MidiEvent, Error>)
        requires
            0x80 <= status < 0xC0 || 0xE0 <= status < 0xF0,
        ensures
            final(stream).bytes() == old(stream).bytes(),
            match r {
                Ok(event) => two_bytes_at(old(stream).bytes(), old(stream).offset() as int, status, delta)
                    == Ok::<(MidiEvent, int), Error>((event, final(stream).offset() as int)),
                Err(e) => two_bytes_at(old(stream).bytes(), old(stream).offset() as int, status, delta)
                    == Err::<(MidiEvent, int), Error>(e),
            },
    {
        let first = stream.read_u8()?;
        let second = stream.read_u8()?;
        assert(status & 0xF0 == 0x80 <==> status < 0x90) by (bit_vector)
            requires
                0x80 <= status,
        ;
        assert(status & 0xF0 == 0x90 <==> 0x90 <= status < 0xA0) by (bit_vector);
        assert(status & 0xF0 == 0xB0 <==> 0xB0 <= status < 0xC0) by (bit_vector);
        Ok(
            match status & 0xF0 {
                0x80 => MidiEvent::note_off(delta, first),
                0x90 => MidiEvent::note_on(delta, first, second),
                0xB0 => MidiEvent::control_change(delta, first, second),
                _ => MidiEvent::Unsupported,
            },
        )
    }

    /// Reads the three bytes of a tempo.
    fn read_tempo(stream: &mut Stream) -> (r: Result<MidiEvent, Error>)
        ensures
            final(stream).bytes() == old(stream).bytes(),
            match r {
                Ok(event) => tempo_at(old(stream).bytes(), old(stream).offset() as int) == Ok::<
                    (MidiEvent, int),
                    Error,
                >((event, final(stream).offset() as int)),
                Err(e) => tempo_at(old(stream).bytes(), old(stream).offset() as int) == Err::<
                    (MidiEvent, int),
                    Error,
                >(e),
            },
    {
        let raw = stream.readn::<3>()?;
        let a: u32 = raw[0] as u32;
        let b: u32 = raw[1] as u32;
        let c: u32 = raw[2] as u32;
        Ok(MidiEvent::Tempo(a * 0x1_0000 + b * 0x100 + c))
    }

    /// Reads a meta event from its type byte on.
    fn read_meta(stream: &mut Stream) -> (r: Result<MidiEvent, Error>)
        ensures
            final(stream).bytes() == old(stream).bytes(),
            match r {
                Ok(event) => meta_at(old(stream).bytes(), old(stream).offset() as int) == Ok::<
                    (MidiEvent, int),
                    Error,
                >((event, final(stream).offset() as int)),
                Err(e) => meta_at(old(stream).bytes(), old(stream).offset() as int) == Err::<
                    (MidiEvent, int),
                    Error,
                >(e),
            },
    {
        let kind = stream.read_u8()?;
        let len = stream.read_vlq()?;
        if kind == META_END_OF_TRACK {
            if len != 0 {
                return Err(Error::MalformedMetaEvent);
            }
            Ok(MidiEvent::EndOfTrack)
        } else if kind == META_TEMPO {
            if len != 3 {
                return Err(Error::MalformedMetaEvent);
            }
            MidiEvent::read_tempo(stream)
        } else {
            MidiEvent::skip(stream, len)
        }
    }

    /// Reads a system-exclusive event from its length on.
    fn read_sysex(stream: &mut Stream) -> (r: Result<MidiEvent, Error>)
        ensures
            final(stream).bytes() == old(stream).bytes(),
            match r {
                Ok(event) => sysex_at(old(stream).bytes(), old(stream).offset() as int) == Ok::<
                    (MidiEvent, int),
                    Error,
                >((event, final(stream).offset() as int)),
                Err(e) => sysex_at(old(stream).bytes(), old(stream).offset() as int) == Err::<
                    (MidiEvent, int),
                    Error,
                >(e),
            },
    {
        let len = stream.read_vlq()?;
        MidiEvent::skip(stream, len)
    }

    /// Reads the event under `status` from its data on.
    fn read_body(stream: &mut Stream, status: u8, delta: u64) -> (r: Result<MidiEvent, Error>)
        ensures
            final(stream).bytes() == old(stream).bytes(),
            match r {
                Ok(event) => body_at(old(stream).bytes(), old(stream).offset() as int, status, delta)
                    == Ok::<(MidiEvent, int), Error>((event, final(stream).offset() as int)),
                Err(e) => body_at(old(stream).bytes(), old(stream).offset() as int, status, delta)
                    == Err::<(MidiEvent, int), Error>(e),
            },
    {
        assert((status & 0xF0) as int == (status / 0x10) * 0x10) by (bit_vector);
        match status & 0xF0 {
            0x80 | 0x90 | 0xA0 | 0xB0 | 0xE0 => MidiEvent::read_two_bytes(stream, status, delta),
            0xC0 | 0xD0 => MidiEvent::skip(stream, 1),
            0xF0 => if status == 0xFF {
                MidiEvent::read_meta(stream)
            } else if status == 0xF0 || status == 0xF7 {
                MidiEvent::read_sysex(stream)
            } else {
                Err(Error::Parse)
            },
            _ => Err(Error::Parse),
        }
    }

    /// Reads one event at the cursor and takes exactly its bytes, whether
    /// the event is of interest or not.
    ///
    /// `status` is the running status: the status byte last seen in this
    /// track. An event that writes its own status byte replaces it; an event
    /// that starts with a data byte is read under it. After a failure the
    /// cursor and the status are of no further use.
    pub fn read(stream: &mut Stream, status: &mut u8) -> (r: Result<MidiEvent, Error>)
        ensures
            final(stream).bytes() == old(stream).bytes(),
            match r {
                Ok(event) => decode_at(old(stream).bytes(), old(stream).offset() as int, *old(status))
                    == Ok::<Decoded, Error>(
                    Decoded { event, next: final(stream).offset() as int, status: *final(status) },
                ),
                Err(e) => decode_at(old(stream).bytes(), old(stream).offset() as int, *old(status))
                    == Err::<Decoded, Error>(e),
            },
    {
        let delta = stream.read_vlq()?;
        let first = stream.peek::<BigEndian, u8>()?;
        assert(first & 0x80 != 0 <==> first >= 0x80) by (bit_vector);
        if first & 0x80 != 0 {
            *status = stream.read_u8()?;
        }
        MidiEvent::read_body(stream, *status, delta)
    }
}

} // verus!

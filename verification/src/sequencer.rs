//! The sequencer: from the bytes of a file to its keyboard events, one at a
//! time.

use vstd::prelude::*;
use crate::chunk::{chunk_at, expect_chunk, header_at, track_tag, track_tag_bytes, Header, CHUNK_PREFIX, HEADER_SIZE};
use crate::clock::{duration, lemma_duration_fits, TempoClock, DEFAULT_TEMPO};
use crate::error::Error;
use crate::event::{decode_at, lemma_decode_bounds, lemma_decoded_kind_wf, Event, MidiEvent};
use crate::io::Stream;

verus! {

/// Where a sequencer stands in its file.
pub struct State {
    /// The position of the next event.
    pub pos: int,
    /// The running status of the track being read.
    pub status: u8,
    /// The tracks not yet read to their end; at 0 the file is done.
    pub tracks: u16,
    /// The tempo in force, in microseconds per quarter note.
    pub tempo: u32,
}

/// The header and the state of a sequencer opened on the file at `pos`: the
/// header is read and checked, then the prefix of the first track chunk. All
/// the tracks are still to be read, no status is in force and the tempo is
/// the default.
pub open spec fn open_at(s: Seq<u8>, pos: int) -> Result<(Header, State), Error> {
    match header_at(s, pos) {
        Err(e) => Err(e),
        Ok(header) => match chunk_at(s, pos + HEADER_SIZE, track_tag()) {
            Err(e) => Err(e),
            Ok(_) => Ok(
                (
                    header,
                    State {
                        pos: pos + HEADER_SIZE + CHUNK_PREFIX,
                        status: 0,
                        tracks: header.tracks,
                        tempo: DEFAULT_TEMPO,
                    },
                ),
            ),
        },
    }
}

/// What the next call yields from state `st`, and the state it leaves.
///
/// With no track left the file is done and yields nothing. Otherwise events
/// are decoded until one shows:
/// - a keyboard event is yielded, its ticks turned into microseconds at the
///   tempo then in force;
/// - a tempo event sets the tempo for what follows and is passed over;
/// - an event of no interest is passed over;
/// - at the end of the last track the file is done; at the end of any other
///   the next track chunk is opened, with no status in force.
/// The first failure ends it all; the state it leaves is of no use.
pub open spec fn next_from(s: Seq<u8>, ppq: u16, st: State) -> (Result<Option<Event>, Error>, State)
    decreases s.len() - st.pos,
    via next_from_decreases
{
    if st.tracks == 0 {
        (Ok(None), st)
    } else {
        match decode_at(s, st.pos, st.status) {
            Err(e) => (Err(e), st),
            Ok(d) => {
                let after = State { pos: d.next, status: d.status, ..st };
                match d.event {
                    MidiEvent::Keyboard(kind, ticks) => (
                        Ok(Some(Event { delta: duration(ticks, st.tempo, ppq) as u64, kind })),
                        after,
                    ),
                    MidiEvent::Tempo(tempo) => next_from(s, ppq, State { tempo, ..after }),
                    MidiEvent::Unsupported => next_from(s, ppq, after),
                    MidiEvent::EndOfTrack => if st.tracks == 1 {
                        (Ok(None), State { tracks: 0, ..after })
                    } else {
                        match chunk_at(s, d.next, track_tag()) {
                            Err(e) => (Err(e), st),
                            Ok(_) => next_from(
                                s,
                                ppq,
                                State {
                                    pos: d.next + CHUNK_PREFIX,
                                    status: 0,
                                    tracks: (st.tracks - 1) as u16,
                                    tempo: st.tempo,
                                },
                            ),
                        }
                    },
                }
            },
        }
    }
}

#[via_fn]
proof fn next_from_decreases(s: Seq<u8>, ppq: u16, st: State) {
    if st.tracks != 0 && decode_at(s, st.pos, st.status) is Ok {
        lemma_decode_bounds(s, st.pos, st.status);
    }
}

/// A tempo event changes what the ticks after it are worth and nothing
/// before it: the event is passed over and decoding goes on under the new
/// tempo, and a keyboard event is worth its ticks at the tempo in force when
/// it is reached.
pub proof fn lemma_tempo_in_force(s: Seq<u8>, ppq: u16, st: State)
    requires
        st.tracks != 0,
        decode_at(s, st.pos, st.status) is Ok,
    ensures
        ({
            let d = decode_at(s, st.pos, st.status)->Ok_0;
            &&& d.event matches MidiEvent::Tempo(tempo) ==> next_from(s, ppq, st) == next_from(
                s,
                ppq,
                State { pos: d.next, status: d.status, tracks: st.tracks, tempo },
            )
            &&& d.event matches MidiEvent::Keyboard(kind, ticks) ==> next_from(s, ppq, st).0 == Ok::<
                Option<Event>,
                Error,
            >(Some(Event { delta: duration(ticks, st.tempo, ppq) as u64, kind }))
        }),
{
}

/// The end of a track that is not the last leads into the next track chunk:
/// its tag is checked, its events follow, and they start with no status in
/// force and under the tempo that the track before left.
pub proof fn lemma_tracks_follow_each_other(s: Seq<u8>, ppq: u16, st: State)
    requires
        st.tracks >= 2,
        decode_at(s, st.pos, st.status) is Ok,
        decode_at(s, st.pos, st.status)->Ok_0.event == MidiEvent::EndOfTrack,
    ensures
        ({
            let d = decode_at(s, st.pos, st.status)->Ok_0;
            match chunk_at(s, d.next, track_tag()) {
                Err(e) => next_from(s, ppq, st).0 == Err::<Option<Event>, Error>(e),
                Ok(_) => next_from(s, ppq, st) == next_from(
                    s,
                    ppq,
                    State {
                        pos: d.next + CHUNK_PREFIX,
                        status: 0,
                        tracks: (st.tracks - 1) as u16,
                        tempo: st.tempo,
                    },
                ),
            }
        }),
{
}

/// Whatever the bytes, an event that is yielded is about one of the 88
/// keys or a pedal and took at least one byte, the sequencer stays within the
/// file, and once it yields nothing no track is left.
pub proof fn lemma_next_from_yields(s: Seq<u8>, ppq: u16, st: State)
    requires
        0 <= st.pos <= s.len(),
    ensures
        ({
            let (r, after) = next_from(s, ppq, st);
            &&& r is Ok ==> st.pos <= after.pos <= s.len()
            &&& r matches Ok(Some(event)) ==> event.kind.wf() && st.pos < after.pos && 1
                <= after.tracks <= st.tracks
            &&& r matches Ok(None) ==> after.tracks == 0
        }),
    decreases s.len() - st.pos,
{
    if st.tracks != 0 && decode_at(s, st.pos, st.status) is Ok {
        lemma_decode_bounds(s, st.pos, st.status);
        lemma_decoded_kind_wf(s, st.pos, st.status);
        let d = decode_at(s, st.pos, st.status)->Ok_0;
        let after = State { pos: d.next, status: d.status, ..st };
        match d.event {
            MidiEvent::Keyboard(_, _) => {},
            MidiEvent::Tempo(tempo) => {
                lemma_next_from_yields(s, ppq, State { tempo, ..after });
            },
            MidiEvent::Unsupported => {
                lemma_next_from_yields(s, ppq, after);
            },
            MidiEvent::EndOfTrack => {
                if st.tracks != 1 && chunk_at(s, d.next, track_tag()) is Ok {
                    lemma_next_from_yields(
                        s,
                        ppq,
                        State {
                            pos: d.next + CHUNK_PREFIX,
                            status: 0,
                            tracks: (st.tracks - 1) as u16,
                            tempo: st.tempo,
                        },
                    );
                }
            },
        }
    }
}

/// All the events that are yielded from state `st` on, in order, and how it
/// ends: with the state in which the file is done, or with the failure that
/// stopped it. The events before a failure stand.
pub open spec fn events_from(s: Seq<u8>, ppq: u16, st: State) -> (Seq<Event>, Result<State, Error>)
    decreases s.len() - st.pos,
    via events_from_decreases
{
    let (r, after) = next_from(s, ppq, st);
    match r {
        Err(e) => (Seq::empty(), Err(e)),
        Ok(None) => (Seq::empty(), Ok(after)),
        Ok(Some(event)) => {
            let (rest, end) = events_from(s, ppq, after);
            (seq![event] + rest, end)
        },
    }
}

#[via_fn]
proof fn events_from_decreases(s: Seq<u8>, ppq: u16, st: State) {
    if 0 <= st.pos <= s.len() {
        lemma_next_from_yields(s, ppq, st);
    } else {
        }
}

/// What follows the end of a track that is not the last: the events of the
/// `tracks` tracks that are left, the first of which starts at `end`, where
/// the track before stopped, under the tempo that it left.
pub open spec fn following_tracks(s: Seq<u8>, ppq: u16, end: State, tracks: u16) -> (
    Seq<Event>,
    Result<State, Error>,
) {
    match chunk_at(s, end.pos, track_tag()) {
        Err(e) => (Seq::empty(), Err(e)),
        Ok(_) => events_from(
            s,
            ppq,
            State { pos: end.pos + CHUNK_PREFIX, status: 0, tracks, tempo: end.tempo },
        ),
    }
}

/// With more than one track left, a call yields what it would yield were
/// the track being read the last one, up to the end of that track; there the
/// next track takes over.
pub proof fn lemma_next_from_first_track(s: Seq<u8>, ppq: u16, st: State)
    requires
        st.tracks >= 2,
        0 <= st.pos <= s.len(),
    ensures
        ({
            let (alone, after) = next_from(s, ppq, State { tracks: 1, ..st });
            match alone {
                Err(e) => next_from(s, ppq, st).0 == Err::<Option<Event>, Error>(e),
                Ok(Some(event)) => next_from(s, ppq, st) == (
                    Ok::<Option<Event>, Error>(Some(event)),
                    State { tracks: st.tracks, ..after },
                ),
                Ok(None) => match chunk_at(s, after.pos, track_tag()) {
                    Err(e) => next_from(s, ppq, st).0 == Err::<Option<Event>, Error>(e),
                    Ok(_) => next_from(s, ppq, st) == next_from(
                        s,
                        ppq,
                        State {
                            pos: after.pos + CHUNK_PREFIX,
                            status: 0,
                            tracks: (st.tracks - 1) as u16,
                            tempo: after.tempo,
                        },
                    ),
                },
            }
        }),
    decreases s.len() - st.pos,
{
    if decode_at(s, st.pos, st.status) is Ok {
        lemma_decode_bounds(s, st.pos, st.status);
        let d = decode_at(s, st.pos, st.status)->Ok_0;
        let after = State { pos: d.next, status: d.status, ..st };
        match d.event {
            MidiEvent::Tempo(tempo) => {
                lemma_next_from_first_track(s, ppq, State { tempo, ..after });
            },
            MidiEvent::Unsupported => {
                lemma_next_from_first_track(s, ppq, after);
            },
            _ => {},
        }
    }
}

/// Tracks are merged one after the other: the events of a file with several
/// tracks left are the events of the track being read, as if it were the
/// last, and then the events of the tracks after it. A failure in the first
/// track ends it all.
pub proof fn lemma_tracks_in_sequence(s: Seq<u8>, ppq: u16, st: State)
    requires
        st.tracks >= 2,
        0 <= st.pos <= s.len(),
    ensures
        ({
            let (first, end) = events_from(s, ppq, State { tracks: 1, ..st });
            let (all, outcome) = events_from(s, ppq, st);
            match end {
                Err(e) => all == first && outcome == Err::<State, Error>(e),
                Ok(last) => {
                    let (rest, rest_outcome) = following_tracks(
                        s,
                        ppq,
                        last,
                        (st.tracks - 1) as u16,
                    );
                    all == first + rest && outcome == rest_outcome
                },
            }
        }),
    decreases s.len() - st.pos,
{
    let alone = State { tracks: 1, ..st };
    lemma_next_from_first_track(s, ppq, st);
    lemma_next_from_yields(s, ppq, alone);
    let (r, after) = next_from(s, ppq, alone);
    let (first, end) = events_from(s, ppq, alone);
    let (all, outcome) = events_from(s, ppq, st);
    match r {
        Err(e) => {
            assert(all =~= first);
        },
        Ok(Some(event)) => {
            let merged = State { tracks: st.tracks, ..after };
            lemma_tracks_in_sequence(s, ppq, merged);
            assert(State { tracks: 1, ..merged } == after);
            let (first_rest, _) = events_from(s, ppq, after);
            let (all_rest, _) = events_from(s, ppq, merged);
            assert(first == seq![event] + first_rest);
            assert(all == seq![event] + all_rest);
            match end {
                Err(e) => {
                    assert(all =~= first);
                },
                Ok(last) => {
                    let (rest, _) = following_tracks(s, ppq, last, (st.tracks - 1) as u16);
                    assert(all =~= first + rest);
                },
            }
        },
        Ok(None) => {
            assert(first =~= Seq::<Event>::empty());
            let (rest, _) = following_tracks(s, ppq, after, (st.tracks - 1) as u16);
            assert(all =~= first + rest);
        },
    }
}

/// A Standard MIDI File being read: a pull iterator over its keyboard events.
///
/// The tracks are read one after the other, each to its end before the next
/// begins. The tempo carries over from track to track.
pub struct MidiFile {
    stream: Stream,
    status: u8,
    tracks: u16,
    clock: TempoClock,
}

impl MidiFile {
    /// The bytes of the file.
    pub closed spec fn bytes(&self) -> Seq<u8> {
        self.stream.bytes()
    }

    /// The pulses per quarter note that the header chunk gave.
    pub closed spec fn division(&self) -> u16 {
        self.clock.pulses_per_quarter()
    }

    /// Where the sequencer stands.
    pub closed spec fn state(&self) -> State {
        State {
            pos: self.stream.offset() as int,
            status: self.status,
            tracks: self.tracks,
            tempo: self.clock.micros_per_quarter(),
        }
    }

    /// Opens the file that `stream` is about to read: checks the header chunk
    /// and enters the first track chunk.
    pub fn new(stream: Stream) -> (r: Result<MidiFile, Error>)
        ensures
            match r {
                Ok(file) => {
                    &&& file.bytes() == stream.bytes()
                    &&& open_at(stream.bytes(), stream.offset() as int) matches Ok((header, state))
                    &&& header.division == file.division()
                    &&& state == file.state()
                },
                Err(e) => open_at(stream.bytes(), stream.offset() as int) == Err::<
                    (Header, State),
                    Error,
                >(e),
            },
    {
        let mut stream = stream;
        let header = Header::read(&mut stream)?;
        let clock = TempoClock::new(header.division)?;
        let mut file = MidiFile { stream, status: 0, tracks: header.tracks, clock };
        file.begin_track()?;
        Ok(file)
    }

    /// Opens the file whose bytes are `data`.
    pub fn open(data: Vec<u8>) -> (r: Result<MidiFile, Error>)
        ensures
            match r {
                Ok(file) => {
                    &&& file.bytes() == data@
                    &&& open_at(data@, 0) matches Ok((header, state))
                    &&& header.division == file.division()
                    &&& state == file.state()
                },
                Err(e) => open_at(data@, 0) == Err::<(Header, State), Error>(e),
            },
    {
        MidiFile::new(Stream::new(data))
    }

    /// The pulses per quarter note that the header chunk gave.
    pub fn ppq(&self) -> (ppq: u16)
        ensures
            ppq == self.division(),
    {
        self.clock.ppq()
    }

    /// The tempo now in force, in microseconds per quarter note.
    pub fn tempo(&self) -> (tempo: u32)
        ensures
            tempo == self.state().tempo,
    {
        self.clock.tempo()
    }

    /// The number of bytes of the file that lie behind the sequencer.
    pub fn position(&self) -> (pos: usize)
        ensures
            pos == self.state().pos,
            pos <= self.bytes().len(),
    {
        self.stream.position()
    }

    /// The tracks not yet read to their end.
    pub fn tracks_remaining(&self) -> (tracks: u16)
        ensures
            tracks == self.state().tracks,
    {
        self.tracks
    }

    /// Enters the track chunk at the cursor: checks its tag, passes over its
    /// length, and lets no status be in force.
    fn begin_track(&mut self) -> (r: Result<(), Error>)
        ensures
            final(self).bytes() == old(self).bytes(),
            final(self).division() == old(self).division(),
            match r {
                Ok(_) => {
                    &&& chunk_at(old(self).bytes(), old(self).state().pos, track_tag()) is Ok
                    &&& final(self).state() == State {
                        pos: old(self).state().pos + CHUNK_PREFIX,
                        status: 0,
                        ..old(self).state()
                    }
                },
                Err(e) => chunk_at(old(self).bytes(), old(self).state().pos, track_tag()) == Err::<
                    u32,
                    Error,
                >(e),
            },
    {
        let tag = track_tag_bytes();
        let _len = expect_chunk(&mut self.stream, &tag)?;
        self.status = 0;
        Ok(())
    }

    /// The next keyboard event of the file, or nothing once the last track
    /// has ended. After a failure the sequencer is of no further use.
    pub fn next(&mut self) -> (r: Result<Option<Event>, Error>)
        ensures
            final(self).bytes() == old(self).bytes(),
            final(self).division() == old(self).division(),
            r == next_from(old(self).bytes(), old(self).division(), old(self).state()).0,
            r is Ok ==> final(self).state() == next_from(
                old(self).bytes(),
                old(self).division(),
                old(self).state(),
            ).1,
            r matches Ok(Some(event)) ==> event.kind.wf(),
    {
        // the sequencer lies within the bytes
        let _pos: usize = self.position();
        proof {
            lemma_next_from_yields(self.bytes(), self.division(), self.state());
        }
        let ghost s = self.bytes();
        let ghost ppq = self.division();
        let ghost goal = next_from(s, ppq, self.state());
        loop
            invariant
                s == old(self).bytes(),
                ppq == old(self).division(),
                goal == next_from(s, ppq, old(self).state()),
                goal.0 matches Ok(Some(event)) ==> event.kind.wf(),
                self.bytes() == s,
                self.division() == ppq,
                next_from(s, ppq, self.state()) == goal,
            decreases s.len() - self.state().pos,
        {
            proof {
                        }
            if self.tracks == 0 {
                return Ok(None);
            }
            let ghost before = self.state();
            let event = MidiEvent::read(&mut self.stream, &mut self.status)?;
            proof {
                lemma_decode_bounds(s, before.pos, before.status);
            }
            match event {
                MidiEvent::Keyboard(kind, ticks) => {
                    let tempo = self.clock.tempo();
                    let division = self.clock.ppq();
                    proof {
                        lemma_duration_fits(ticks, tempo, division);
                    }
                    let delta = self.clock.ticks_to_duration(ticks);
                    return Ok(Some(Event { delta, kind }));
                },
                MidiEvent::Tempo(tempo) => {
                    self.clock.set_tempo(tempo);
                },
                MidiEvent::Unsupported => {},
                MidiEvent::EndOfTrack => {
                    if self.tracks == 1 {
                        self.tracks = 0;
                        return Ok(None);
                    }
                    self.begin_track()?;
                    self.tracks = self.tracks - 1;
                },
            }
        }
    }
}

/// Decodes a whole file: the keyboard events of all its tracks in order,
/// and how decoding ended. The events that came before a failure are
/// returned with it.
pub fn midi(data: Vec<u8>) -> (r: (Vec<Event>, Result<(), Error>))
    ensures
        match open_at(data@, 0) {
            Err(e) => r.0@ == Seq::<Event>::empty() && r.1 == Err::<(), Error>(e),
            Ok((header, start)) => {
                let (events, outcome) = events_from(data@, header.division, start);
                &&& r.0@ == events
                &&& r.1 is Err <==> outcome is Err
                &&& r.1 matches Err(e) ==> outcome == Err::<State, Error>(e)
            },
        },
{
    let ghost bytes = data@;
    let mut events: Vec<Event> = Vec::new();
    let mut file = match MidiFile::open(data) {
        Ok(file) => file,
        Err(e) => {
            return (events, Err(e));
        },
    };
    let ghost s = file.bytes();
    let ghost ppq = file.division();
    let ghost goal = events_from(s, ppq, file.state());
    loop
        invariant
            s == bytes,
            bytes == data@,
            open_at(bytes, 0) matches Ok((header, start)) && header.division == ppq && goal
                == events_from(s, ppq, start),
            file.bytes() == s,
            file.division() == ppq,
            events@ + events_from(s, ppq, file.state()).0 == goal.0,
            events_from(s, ppq, file.state()).1 == goal.1,
        decreases s.len() - file.state().pos,
    {
        // the sequencer lies within the bytes, so every event moves it on
        let _pos: usize = file.position();
        proof {
            lemma_next_from_yields(s, ppq, file.state());
        }
        let ghost before = events@;
        let ghost rest = events_from(s, ppq, file.state()).0;
        match file.next() {
            Err(e) => {
                assert(events@ =~= goal.0);
                return (events, Err(e));
            },
            Ok(None) => {
                assert(events@ =~= goal.0);
                return (events, Ok(()));
            },
            Ok(Some(event)) => {
                events.push(event);
                assert(events@ + events_from(s, ppq, file.state()).0 =~= before + rest);
            },
        }
    }
}

} // verus!

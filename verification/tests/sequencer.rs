use midi::chunk::{expect_chunk, header_tag_bytes, track_tag_bytes, Header};
use midi::clock::TempoClock;
use midi::error::Error;
use midi::event::{Event, EventKind};
use midi::io::Stream;
use midi::key::{Keyboard, Note, Pedal};
use midi::sequencer::{midi, MidiFile};

fn note(midi: u8) -> Note {
    Note::new(midi).unwrap()
}

fn header(format: u16, tracks: u16, division: u16) -> Vec<u8> {
    let mut out = b"MThd".to_vec();
    out.extend(6u32.to_be_bytes());
    out.extend(format.to_be_bytes());
    out.extend(tracks.to_be_bytes());
    out.extend(division.to_be_bytes());
    out
}

fn track(events: &[u8]) -> Vec<u8> {
    let mut out = b"MTrk".to_vec();
    out.extend((events.len() as u32).to_be_bytes());
    out.extend(events);
    out
}

fn file(format: u16, division: u16, tracks: &[&[u8]]) -> Vec<u8> {
    let mut out = header(format, tracks.len() as u16, division);
    for events in tracks {
        out.extend(track(events));
    }
    out
}

fn collect(bytes: Vec<u8>) -> Result<Vec<Event>, Error> {
    let mut midi = MidiFile::open(bytes)?;
    let mut out = Vec::new();
    while let Some(event) = midi.next()? {
        out.push(event);
    }
    Ok(out)
}

const END: [u8; 4] = [0x00, 0xFF, 0x2F, 0x00];

#[test]
fn end_to_end_single_track() {
    let mut events = vec![0x00, 0x90, 60, 80, 0x83, 0x60, 0x80, 60, 0];
    events.extend(END);
    let mut midi = MidiFile::open(file(0, 480, &[&events])).unwrap();
    assert_eq!(midi.ppq(), 480);
    assert_eq!(midi.tempo(), 500_000);
    assert_eq!(midi.tracks_remaining(), 1);
    assert_eq!(
        midi.next(),
        Ok(Some(Event { delta: 0, kind: EventKind::KeyPressed { note: note(60), velocity: 80 } }))
    );
    assert_eq!(
        midi.next(),
        Ok(Some(Event { delta: 500_000, kind: EventKind::KeyReleased { note: note(60) } }))
    );
    assert_eq!(midi.next(), Ok(None));
    assert_eq!(midi.tracks_remaining(), 0);
    assert_eq!(midi.next(), Ok(None));
}

#[test]
fn tempo_change_applies_to_later_events_only() {
    let mut events = vec![0x01, 0x90, 60, 80];
    events.extend([0x00, 0xFF, 0x51, 0x03, 0x09, 0x27, 0xC0]);
    events.extend([0x01, 0x80, 60, 0]);
    events.extend([0x83, 0x60, 0x90, 62, 70]);
    events.extend(END);
    let mut midi = MidiFile::open(file(0, 480, &[&events])).unwrap();
    let first = midi.next().unwrap().unwrap();
    assert_eq!(first.delta, 1041);
    assert_eq!(midi.tempo(), 500_000);
    let second = midi.next().unwrap().unwrap();
    assert_eq!(second.delta, 1250);
    assert_eq!(midi.tempo(), 600_000);
    let third = midi.next().unwrap().unwrap();
    assert_eq!(third.delta, 600_000);
    assert_eq!(first.delta, 1041);
    assert_eq!(midi.next(), Ok(None));
}

#[test]
fn tempo_carries_over_to_the_next_track() {
    let mut one = vec![0x00, 0xFF, 0x51, 0x03, 0x09, 0x27, 0xC0];
    one.extend(END);
    let mut two = vec![0x83, 0x60, 0x90, 60, 80];
    two.extend(END);
    assert_eq!(
        collect(file(1, 480, &[&one, &two])),
        Ok(vec![Event { delta: 600_000, kind: EventKind::KeyPressed { note: note(60), velocity: 80 } }])
    );
}

#[test]
fn multi_track_merge_is_sequential() {
    let mut one = vec![0x00, 0x90, 60, 80, 0x10, 0x90, 62, 81, 0x10, 0x80, 60, 0];
    one.extend(END);
    let mut two = vec![0x00, 0xB0, 0x40, 127, 0x20, 0x90, 64, 82];
    two.extend(END);
    let events = collect(file(1, 480, &[&one, &two])).unwrap();
    assert_eq!(events.len(), 5);
    assert_eq!(
        events.iter().map(|e| e.kind).collect::<Vec<_>>(),
        vec![
            EventKind::KeyPressed { note: note(60), velocity: 80 },
            EventKind::KeyPressed { note: note(62), velocity: 81 },
            EventKind::KeyReleased { note: note(60) },
            EventKind::DamperPedal { value: 127 },
            EventKind::KeyPressed { note: note(64), velocity: 82 },
        ]
    );
}

#[test]
fn running_status_is_reset_between_tracks() {
    let mut one = vec![0x00, 0x90, 60, 80];
    one.extend(END);
    let mut two = vec![0x00, 62, 81];
    two.extend(END);
    let mut midi = MidiFile::open(file(1, 480, &[&one, &two])).unwrap();
    assert!(midi.next().unwrap().is_some());
    assert_eq!(midi.next(), Err(Error::Parse));
}

#[test]
fn running_status_within_a_track() {
    let mut events = vec![0x00, 0x90, 0x3C, 0x40, 0x00, 0x3C, 0x00];
    events.extend(END);
    assert_eq!(
        collect(file(0, 96, &[&events])),
        Ok(vec![
            Event { delta: 0, kind: EventKind::KeyPressed { note: note(60), velocity: 64 } },
            Event { delta: 0, kind: EventKind::KeyReleased { note: note(60) } },
        ])
    );
}

#[test]
fn dropped_events_do_not_surface() {
    let mut events = vec![0x00, 0xC0, 0x05];
    events.extend([0x00, 0x90, 20, 64]);
    events.extend([0x00, 0x90, 109, 64]);
    events.extend([0x00, 0xFF, 0x03, 0x02, b'h', b'i']);
    events.extend([0x00, 0xF0, 0x02, 0x01, 0xF7]);
    events.extend([0x00, 0xE0, 0x00, 0x40]);
    events.extend([0x00, 0x90, 21, 64]);
    events.extend([0x00, 0x90, 108, 64]);
    events.extend(END);
    assert_eq!(
        collect(file(0, 480, &[&events])),
        Ok(vec![
            Event { delta: 0, kind: EventKind::KeyPressed { note: note(21), velocity: 64 } },
            Event { delta: 0, kind: EventKind::KeyPressed { note: note(108), velocity: 64 } },
        ])
    );
}

#[test]
fn wrong_header_tag_fails_before_any_track() {
    let mut bytes = file(0, 480, &[&END]);
    bytes[3] = b'x';
    assert_eq!(MidiFile::open(bytes).err(), Some(Error::InvalidChunkTag));
    assert_eq!(MidiFile::open(b"MThx".to_vec()).err(), Some(Error::InvalidChunkTag));
}

#[test]
fn wrong_header_length_fails() {
    let mut bytes = file(0, 480, &[&END]);
    bytes[7] = 7;
    assert_eq!(MidiFile::open(bytes).err(), Some(Error::InvalidHeaderLength));
}

#[test]
fn format_two_is_unsupported() {
    assert_eq!(MidiFile::open(file(2, 480, &[&END])).err(), Some(Error::UnsupportedFormat));
    assert_eq!(MidiFile::open(file(0xFFFF, 480, &[&END])).err(), Some(Error::UnsupportedFormat));
    assert!(MidiFile::open(file(0, 480, &[&END])).is_ok());
    assert!(MidiFile::open(file(1, 480, &[&END])).is_ok());
}

#[test]
fn smpte_division_is_unsupported() {
    assert_eq!(MidiFile::open(file(0, 0x8000, &[&END])).err(), Some(Error::UnsupportedTimingMode));
    assert_eq!(MidiFile::open(file(0, 0xE728, &[&END])).err(), Some(Error::UnsupportedTimingMode));
    assert!(MidiFile::open(file(0, 0x7FFF, &[&END])).is_ok());
    assert!(MidiFile::open(file(0, 1, &[&END])).is_ok());
}

#[test]
fn division_of_zero_is_unsupported() {
    assert_eq!(MidiFile::open(file(0, 0, &[&END])).err(), Some(Error::UnsupportedTimingMode));
}

#[test]
fn wrong_track_tag_fails() {
    let mut bytes = header(0, 1, 480);
    bytes.extend(b"MTrx");
    bytes.extend([0, 0, 0, 4]);
    bytes.extend(END);
    assert_eq!(MidiFile::open(bytes).err(), Some(Error::InvalidChunkTag));

    let mut bytes = file(1, 480, &[&END]);
    bytes[10] = 0;
    bytes[11] = 2;
    bytes.extend(b"XXXX");
    bytes.extend([0, 0, 0, 4]);
    bytes.extend(END);
    let mut midi = MidiFile::open(bytes).unwrap();
    assert_eq!(midi.next(), Err(Error::InvalidChunkTag));
}

#[test]
fn truncated_files_are_io() {
    let whole = file(0, 480, &[&[0x00, 0x90, 60, 80, 0x00, 0xFF, 0x2F, 0x00]]);
    for cut in 0..22 {
        assert_eq!(MidiFile::open(whole[..cut].to_vec()).err(), Some(Error::Io), "cut at {}", cut);
    }
    for cut in 22..26 {
        let mut midi = MidiFile::open(whole[..cut].to_vec()).unwrap();
        assert_eq!(midi.next(), Err(Error::Io), "cut at {}", cut);
    }
    for cut in 26..whole.len() {
        let mut midi = MidiFile::open(whole[..cut].to_vec()).unwrap();
        assert!(midi.next().unwrap().is_some());
        assert_eq!(midi.next(), Err(Error::Io), "cut at {}", cut);
    }
    let mut missing_second = file(1, 480, &[&END]);
    missing_second[11] = 2;
    let mut midi = MidiFile::open(missing_second).unwrap();
    assert_eq!(midi.next(), Err(Error::Io));
}

#[test]
fn malformed_tempo_fails_in_next() {
    let mut events = vec![0x00, 0x90, 60, 80];
    events.extend([0x00, 0xFF, 0x51, 0x02, 0x07, 0xA1]);
    events.extend(END);
    let mut midi = MidiFile::open(file(0, 480, &[&events])).unwrap();
    let first = midi.next();
    assert_eq!(
        first,
        Ok(Some(Event { delta: 0, kind: EventKind::KeyPressed { note: note(60), velocity: 80 } }))
    );
    assert_eq!(midi.next(), Err(Error::MalformedMetaEvent));
    assert_eq!(
        first,
        Ok(Some(Event { delta: 0, kind: EventKind::KeyPressed { note: note(60), velocity: 80 } }))
    );
}

#[test]
fn a_file_of_no_tracks_yields_nothing() {
    let mut bytes = header(0, 0, 480);
    bytes.extend(track(&[0x00, 0x90, 60, 80, 0x00, 0xFF, 0x2F, 0x00]));
    let mut midi = MidiFile::open(bytes).unwrap();
    assert_eq!(midi.tracks_remaining(), 0);
    assert_eq!(midi.next(), Ok(None));
    assert_eq!(MidiFile::open(header(0, 0, 480)).err(), Some(Error::Io));
}

#[test]
fn tracks_beyond_the_count_are_not_read() {
    let mut bytes = header(0, 1, 480);
    bytes.extend(track(&END));
    bytes.extend(track(&[0x00, 0x90, 60, 80, 0x00, 0xFF, 0x2F, 0x00]));
    assert_eq!(collect(bytes), Ok(vec![]));
}

#[test]
fn sequencer_starts_where_the_stream_stands() {
    let mut bytes = vec![0xAA, 0xBB, 0xCC];
    bytes.extend(file(0, 480, &[&[0x00, 0x90, 60, 80, 0x00, 0xFF, 0x2F, 0x00]]));
    let mut stream = Stream::new(bytes);
    stream.seek_forward(3).unwrap();
    let mut midi = MidiFile::new(stream).unwrap();
    assert_eq!(
        midi.next(),
        Ok(Some(Event { delta: 0, kind: EventKind::KeyPressed { note: note(60), velocity: 80 } }))
    );
    assert_eq!(midi.next(), Ok(None));
}

#[test]
fn longest_delta_at_slowest_tempo_fits() {
    let mut events = vec![0x00, 0xFF, 0x51, 0x03, 0xFF, 0xFF, 0xFF];
    events.extend([0xFF, 0xFF, 0xFF, 0xFF, 0x7F, 0x90, 60, 80]);
    events.extend(END);
    let expected = (0x7_FFFF_FFFFu128 * 0xFF_FFFFu128) as u64;
    assert_eq!(
        collect(file(0, 1, &[&events])),
        Ok(vec![Event { delta: expected, kind: EventKind::KeyPressed { note: note(60), velocity: 80 } }])
    );
}

#[test]
fn header_fields_are_read_in_order() {
    let mut stream = Stream::new(header(1, 3, 96));
    assert_eq!(Header::read(&mut stream), Ok(Header { format: 1, tracks: 3, division: 96 }));
    assert_eq!(stream.position(), 14);
    let mut short = header(2, 3, 96);
    short.truncate(10);
    assert_eq!(Header::read(&mut Stream::new(short)), Err(Error::UnsupportedFormat));
    let mut short = header(1, 3, 96);
    short.truncate(13);
    assert_eq!(Header::read(&mut Stream::new(short)), Err(Error::Io));
}

#[test]
fn expect_chunk_returns_the_length() {
    let mut stream = Stream::new(track(&[1, 2, 3]));
    assert_eq!(expect_chunk(&mut stream, &track_tag_bytes()), Ok(3));
    assert_eq!(stream.position(), 8);
    let mut stream = Stream::new(track(&[1, 2, 3]));
    assert_eq!(expect_chunk(&mut stream, &header_tag_bytes()), Err(Error::InvalidChunkTag));
    assert_eq!(expect_chunk(&mut Stream::new(b"MTr".to_vec()), &track_tag_bytes()), Err(Error::Io));
    assert_eq!(expect_chunk(&mut Stream::new(b"MTrk\0\0".to_vec()), &track_tag_bytes()), Err(Error::Io));
    assert_eq!(header_tag_bytes(), *b"MThd");
    assert_eq!(track_tag_bytes(), *b"MTrk");
}

#[test]
fn clock_converts_ticks_at_the_tempo_in_force() {
    let mut clock = TempoClock::new(480).unwrap();
    assert_eq!(clock.ppq(), 480);
    assert_eq!(clock.tempo(), 500_000);
    assert_eq!(clock.ticks_to_duration(0), 0);
    assert_eq!(clock.ticks_to_duration(1), 1041);
    assert_eq!(clock.ticks_to_duration(480), 500_000);
    assert_eq!(clock.ticks_to_duration(960), 1_000_000);
    clock.set_tempo(600_000);
    assert_eq!(clock.tempo(), 600_000);
    assert_eq!(clock.ppq(), 480);
    assert_eq!(clock.ticks_to_duration(1), 1250);
    assert_eq!(clock.ticks_to_duration(480), 600_000);
    assert_eq!(TempoClock::new(0x8000).err(), Some(Error::UnsupportedTimingMode));
    assert_eq!(TempoClock::new(0xFFFF).err(), Some(Error::UnsupportedTimingMode));
    assert_eq!(TempoClock::new(0).err(), Some(Error::UnsupportedTimingMode));
    assert!(TempoClock::new(0x7FFF).is_ok());
}

#[test]
fn apply_writes_keys_and_pedals() {
    let mut keyboard = Keyboard::new();
    for midi in 21u8..=108 {
        assert_eq!(keyboard.key(note(midi)), 0);
    }
    assert_eq!(keyboard.pedal(Pedal::Soft), 0);
    assert_eq!(keyboard.pedal(Pedal::Damper), 0);

    let press = Event { delta: 1234, kind: EventKind::KeyPressed { note: note(60), velocity: 80 } };
    assert_eq!(press.apply(&mut keyboard), 1234);
    assert_eq!(keyboard.key(note(60)), 80);
    assert_eq!(keyboard.key(note(59)), 0);
    assert_eq!(keyboard.key(note(61)), 0);

    let low = Event { delta: 0, kind: EventKind::KeyPressed { note: note(21), velocity: 1 } };
    let high = Event { delta: 0, kind: EventKind::KeyPressed { note: note(108), velocity: 127 } };
    assert_eq!(low.apply(&mut keyboard), 0);
    assert_eq!(high.apply(&mut keyboard), 0);
    assert_eq!(keyboard.key(note(21)), 1);
    assert_eq!(keyboard.key(note(108)), 127);

    let damper = Event { delta: 5, kind: EventKind::DamperPedal { value: 100 } };
    assert_eq!(damper.apply(&mut keyboard), 5);
    assert_eq!(keyboard.pedal(Pedal::Damper), 100);
    assert_eq!(keyboard.pedal(Pedal::Soft), 0);
    let soft = Event { delta: 6, kind: EventKind::SoftPedal { value: 33 } };
    assert_eq!(soft.apply(&mut keyboard), 6);
    assert_eq!(keyboard.pedal(Pedal::Soft), 33);
    assert_eq!(keyboard.pedal(Pedal::Damper), 100);
    assert_eq!(keyboard.key(note(60)), 80);

    let release = Event { delta: 9, kind: EventKind::KeyReleased { note: note(60) } };
    assert_eq!(release.apply(&mut keyboard), 9);
    assert_eq!(keyboard.key(note(60)), 0);
    assert_eq!(keyboard.key(note(21)), 1);

    let mut other = Keyboard::new();
    assert_ne!(keyboard, other);
    other.set_key(note(21), 1);
    other.set_key(note(108), 127);
    other.set_pedal(Pedal::Damper, 100);
    other.set_pedal(Pedal::Soft, 33);
    assert_eq!(keyboard, other);
}

#[test]
fn error_messages() {
    assert_eq!(Error::Io.message(), "unexpected end of data");
    assert_eq!(Error::InvalidChunkTag.message(), "invalid chunk tag");
    assert_eq!(Error::InvalidHeaderLength.message(), "invalid header length (expected 6)");
    assert_eq!(Error::UnsupportedFormat.message(), "unsupported file format (expected 0 or 1)");
    assert_eq!(Error::UnsupportedTimingMode.message(), "unsupported timing mode");
    assert_eq!(Error::MalformedMetaEvent.message(), "invalid meta event length");
    assert_eq!(Error::VlqOverflow.message(), "variable-length quantity longer than 5 bytes");
    assert_eq!(Error::Parse.message(), "unrecognised status byte");
    assert!(Error::Io.is_io());
    assert!(!Error::Parse.is_io());
}

#[test]
fn whole_file_decoding_matches_the_pull_iterator() {
    let mut one = vec![0x00, 0x90, 60, 80, 0x10, 0x90, 62, 81, 0x10, 0x80, 60, 0];
    one.extend(END);
    let mut two = vec![0x00, 0xB0, 0x40, 127, 0x20, 0x90, 64, 82];
    two.extend(END);
    let bytes = file(1, 480, &[&one, &two]);
    let (events, outcome) = midi(bytes.clone());
    assert_eq!(outcome, Ok(()));
    assert_eq!(events.len(), 5);
    assert_eq!(Ok(events), collect(bytes));
}

#[test]
fn whole_file_decoding_keeps_the_events_before_a_failure() {
    let mut events = vec![0x00, 0x90, 60, 80];
    events.extend([0x00, 0xFF, 0x51, 0x02, 0x07, 0xA1]);
    events.extend(END);
    assert_eq!(
        midi(file(0, 480, &[&events])),
        (
            vec![Event { delta: 0, kind: EventKind::KeyPressed { note: note(60), velocity: 80 } }],
            Err(Error::MalformedMetaEvent)
        )
    );
    assert_eq!(midi(b"MThx".to_vec()), (vec![], Err(Error::InvalidChunkTag)));
    assert_eq!(midi(vec![]), (vec![], Err(Error::Io)));
    assert_eq!(midi(file(0, 480, &[&END])), (vec![], Ok(())));
}

#[test]
fn several_tracks_give_the_events_of_each_in_turn() {
    let mut one = vec![0x00, 0x90, 60, 80, 0x00, 0xFF, 0x51, 0x03, 0x09, 0x27, 0xC0];
    one.extend(END);
    let mut two = vec![0x83, 0x60, 0x90, 64, 82];
    two.extend(END);
    let mut three = vec![0x00, 0xB0, 0x43, 9];
    three.extend(END);
    let (first, _) = midi(file(0, 480, &[&one]));
    let (all, outcome) = midi(file(1, 480, &[&one, &two, &three]));
    assert_eq!(outcome, Ok(()));
    assert_eq!(&all[..first.len()], &first[..]);
    assert_eq!(
        &all[first.len()..],
        &[
            Event { delta: 600_000, kind: EventKind::KeyPressed { note: note(64), velocity: 82 } },
            Event { delta: 0, kind: EventKind::SoftPedal { value: 9 } },
        ]
    );
}

#[test]
fn position_follows_the_events() {
    let mut events = vec![0x00, 0x90, 60, 80, 0x00, 0xC0, 0x01, 0x00, 0x80, 60, 0];
    events.extend(END);
    let mut midi = MidiFile::open(file(0, 480, &[&events])).unwrap();
    assert_eq!(midi.position(), 22);
    midi.next().unwrap();
    assert_eq!(midi.position(), 26);
    midi.next().unwrap();
    assert_eq!(midi.position(), 33);
    assert_eq!(midi.next(), Ok(None));
    assert_eq!(midi.position(), 37);
}

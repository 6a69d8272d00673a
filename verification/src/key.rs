//! The 88 keys and two pedals of a piano.

use vstd::prelude::*;
use vstd::string::*;

verus! {

/// The lowest note of an 88-key keyboard, A0.
pub const NOTE_MIN: u8 = 21;

/// The highest note of an 88-key keyboard, C8.
pub const NOTE_MAX: u8 = 108;

/// The number of keys.
pub const KEYS: usize = 88;

/// Whether a MIDI note number names one of the 88 keys.
pub open spec fn on_keyboard(midi: u8) -> bool {
    NOTE_MIN <= midi <= NOTE_MAX
}

/// A MIDI note number that names one of the 88 keys.
#[derive(Clone, Copy, Debug, PartialEq, Eq, Structural, PartialOrd, Ord)]
pub struct Note(u8);

impl Note {
    #[verifier::type_invariant]
    spec fn inv(self) -> bool {
        on_keyboard(self.0)
    }

    /// The MIDI note number.
    pub closed spec fn value(self) -> u8 {
        self.0
    }

    /// The note with the given number.
    pub closed spec fn of(midi: u8) -> Note {
        Note(midi)
    }

    /// A note is known by its number.
    pub proof fn lemma_value_of(midi: u8)
        ensures
            Note::of(midi).value() == midi,
    {
    }

    /// A note is known by its number.
    pub proof fn lemma_of_value(note: Note)
        ensures
            Note::of(note.value()) == note,
    {
    }

    /// The note with the given number, or nothing for a number off the
    /// keyboard.
    pub fn new(midi: u8) -> (note: Option<Note>)
        ensures
            note == (if on_keyboard(midi) {
                Some(Note::of(midi))
            } else {
                None
            }),
    {
        if midi >= NOTE_MIN && midi <= NOTE_MAX {
            Some(Note(midi))
        } else {
            None
        }
    }

    /// The MIDI note number.
    pub fn midi(&self) -> (midi: u8)
        ensures
            midi == self.value(),
            on_keyboard(midi),
    {
        proof {
            use_type_invariant(self);
        }
        self.0
    }

    /// The place of the note's key on the keyboard, counted from the lowest.
    pub fn index(&self) -> (i: usize)
        ensures
            i == self.value() - NOTE_MIN,
            i < KEYS,
    {
        proof {
            use_type_invariant(self);
        }
        (self.0 - NOTE_MIN) as usize
    }
}

/// One of the two pedals of a piano. The middle pedal is left out.
#[derive(Clone, Copy, Debug, PartialEq, Eq, Structural, PartialOrd, Ord)]
pub enum Pedal {
    /// The soft pedal.
    Soft,
    /// The damper pedal, which sustains.
    Damper,
}

impl Pedal {
    /// The place of the pedal among the pedals of a keyboard.
    pub open spec fn ordinal(self) -> int {
        match self {
            Pedal::Soft => 0,
            Pedal::Damper => 1,
        }
    }

    /// The place of the pedal among the pedals of a keyboard.
    pub fn index(&self) -> (i: usize)
        ensures
            i == self.ordinal(),
    {
        match self {
            Pedal::Soft => 0,
            Pedal::Damper => 1,
        }
    }
}

/// How far each key and each pedal of an 88-key keyboard is pressed.
#[derive(Clone, Debug, PartialEq)]
pub struct Keyboard {
    /// The velocity of each key from A0 to C8; 0 for a key that is up.
    keys: [u8; 88],
    /// How far the soft pedal and the damper pedal are pressed.
    pedals: [u8; 2],
}

impl Keyboard {
    /// The velocity of each of the 88 keys, lowest first.
    pub closed spec fn keys(&self) -> Seq<u8> {
        self.keys@
    }

    /// The values of the soft pedal and of the damper pedal.
    pub closed spec fn pedals(&self) -> Seq<u8> {
        self.pedals@
    }

    /// A keyboard has 88 keys and two pedals.
    pub proof fn lemma_sizes(&self)
        ensures
            self.keys().len() == KEYS,
            self.pedals().len() == 2,
    {
    }

    /// A keyboard with every key up and both pedals released.
    pub fn new() -> (keyboard: Keyboard)
        ensures
            keyboard.keys() == Seq::new(KEYS as nat, |i: int| 0u8),
            keyboard.pedals() == Seq::new(2, |i: int| 0u8),
    {
        let keyboard = Keyboard { keys: [0; 88], pedals: [0; 2] };
        assert(keyboard.keys@ =~= Seq::new(KEYS as nat, |i: int| 0u8));
        assert(keyboard.pedals@ =~= Seq::new(2, |i: int| 0u8));
        keyboard
    }

    /// The velocity of a key; 0 for a key that is up.
    pub fn key(&self, note: Note) -> (velocity: u8)
        ensures
            velocity == self.keys()[note.value() - NOTE_MIN],
    {
        self.keys[note.index()]
    }

    /// How far a pedal is pressed.
    pub fn pedal(&self, pedal: Pedal) -> (value: u8)
        ensures
            value == self.pedals()[pedal.ordinal()],
    {
        self.pedals[pedal.index()]
    }

    /// Sets the velocity of one key and leaves the rest as it is.
    pub fn set_key(&mut self, note: Note, velocity: u8)
        ensures
            final(self).keys() == old(self).keys().update(note.value() - NOTE_MIN, velocity),
            final(self).pedals() == old(self).pedals(),
    {
        let i = note.index();
        self.keys[i] = velocity;
        assert(self.keys@ =~= old(self).keys@.update(i as int, velocity));
    }

    /// Sets one pedal and leaves the rest as it is.
    pub fn set_pedal(&mut self, pedal: Pedal, value: u8)
        ensures
            final(self).pedals() == old(self).pedals().update(pedal.ordinal(), value),
            final(self).keys() == old(self).keys(),
    {
        let i = pedal.index();
        self.pedals[i] = value;
        assert(self.pedals@ =~= old(self).pedals@.update(i as int, value));
    }
}

/// A span of twelve semitones, numbered so that octave 4 starts at middle C.
/// The keyboard runs from A in octave 0 to C in octave 8.
#[derive(Clone, Copy, Debug, PartialEq, Eq, Structural, PartialOrd, Ord)]
pub struct Octave(pub u8);

/// The seven white keys of an octave.
#[derive(Clone, Copy, Debug, PartialEq, Eq, Structural, PartialOrd, Ord)]
pub enum Tone {
    /// Do
    C,
    /// Re
    D,
    /// Mi
    E,
    /// Fa
    F,
    /// So
    G,
    /// La
    A,
    /// Ti
    B,
}

/// An accidental: a half step up, a half step down, or neither.
#[derive(Clone, Copy, Debug, PartialEq, Eq, Structural, PartialOrd, Ord)]
pub enum Semitone {
    /// No accidental.
    Natural,
    /// A half step up.
    Sharp,
    /// A half step down.
    Flat,
}

impl Tone {
    /// The semitones from the C of the same octave up to this tone.
    pub open spec fn offset(self) -> int {
        match self {
            Tone::C => 0,
            Tone::D => 2,
            Tone::E => 4,
            Tone::F => 5,
            Tone::G => 7,
            Tone::A => 9,
            Tone::B => 11,
        }
    }

    /// The letter that names the tone.
    pub open spec fn letter(self) -> Seq<char> {
        match self {
            Tone::C => "C"@,
            Tone::D => "D"@,
            Tone::E => "E"@,
            Tone::F => "F"@,
            Tone::G => "G"@,
            Tone::A => "A"@,
            Tone::B => "B"@,
        }
    }

    /// The semitones from the C of the same octave up to this tone.
    pub fn semitones(&self) -> (n: u8)
        ensures
            n == self.offset(),
    {
        match self {
            Tone::C => 0,
            Tone::D => 2,
            Tone::E => 4,
            Tone::F => 5,
            Tone::G => 7,
            Tone::A => 9,
            Tone::B => 11,
        }
    }

    /// The letter that names the tone.
    pub fn as_str(&self) -> (text: &'static str)
        ensures
            text@ == self.letter(),
    {
        match self {
            Tone::C => "C",
            Tone::D => "D",
            Tone::E => "E",
            Tone::F => "F",
            Tone::G => "G",
            Tone::A => "A",
            Tone::B => "B",
        }
    }
}

impl Semitone {
    /// The half steps that the accidental adds.
    pub open spec fn shift(self) -> int {
        match self {
            Semitone::Natural => 0,
            Semitone::Sharp => 1,
            Semitone::Flat => -1,
        }
    }

    /// The sign that is written for the accidental; nothing for a natural.
    pub open spec fn sign(self) -> Seq<char> {
        match self {
            Semitone::Natural => ""@,
            Semitone::Sharp => "\u{266f}"@,
            Semitone::Flat => "\u{266d}"@,
        }
    }

    /// The sign that is written for the accidental; nothing for a natural.
    pub fn as_str(&self) -> (text: &'static str)
        ensures
            text@ == self.sign(),
    {
        match self {
            Semitone::Natural => "",
            Semitone::Sharp => "\u{266f}",
            Semitone::Flat => "\u{266d}",
        }
    }
}

impl Octave {
    /// The digit that is written for the octave, for the octaves 0 to 9.
    pub open spec fn digit(self) -> Seq<char>
        recommends
            self.0 <= 9,
    {
        if self.0 == 0 {
            "0"@
        } else if self.0 == 1 {
            "1"@
        } else if self.0 == 2 {
            "2"@
        } else if self.0 == 3 {
            "3"@
        } else if self.0 == 4 {
            "4"@
        } else if self.0 == 5 {
            "5"@
        } else if self.0 == 6 {
            "6"@
        } else if self.0 == 7 {
            "7"@
        } else if self.0 == 8 {
            "8"@
        } else {
            "9"@
        }
    }

    /// The digit that is written for the octave.
    fn as_str(&self) -> (text: &'static str)
        requires
            self.0 <= 9,
        ensures
            text@ == self.digit(),
    {
        match self.0 {
            0 => "0",
            1 => "1",
            2 => "2",
            3 => "3",
            4 => "4",
            5 => "5",
            6 => "6",
            7 => "7",
            8 => "8",
            _ => "9",
        }
    }
}

/// The MIDI note number of a tone with an accidental in an octave: twelve
/// for each octave, counted so that the C of octave 4 is 60.
pub open spec fn pitch(oct: Octave, tone: Tone, semi: Semitone) -> int {
    (oct.0 + 1) * 12 + tone.offset() + semi.shift()
}

/// Whether a tone with an accidental in an octave is one of the 88 keys.
pub open spec fn key_on_keyboard(oct: Octave, tone: Tone, semi: Semitone) -> bool {
    NOTE_MIN <= pitch(oct, tone, semi) <= NOTE_MAX
}

/// The tone and the accidental of a note number, a sharp wherever a black
/// key could be written either way.
pub open spec fn tone_of_pitch(midi: u8) -> (Tone, Semitone) {
    let class = midi % 12;
    if class == 0 {
        (Tone::C, Semitone::Natural)
    } else if class == 1 {
        (Tone::C, Semitone::Sharp)
    } else if class == 2 {
        (Tone::D, Semitone::Natural)
    } else if class == 3 {
        (Tone::D, Semitone::Sharp)
    } else if class == 4 {
        (Tone::E, Semitone::Natural)
    } else if class == 5 {
        (Tone::F, Semitone::Natural)
    } else if class == 6 {
        (Tone::F, Semitone::Sharp)
    } else if class == 7 {
        (Tone::G, Semitone::Natural)
    } else if class == 8 {
        (Tone::G, Semitone::Sharp)
    } else if class == 9 {
        (Tone::A, Semitone::Natural)
    } else if class == 10 {
        (Tone::A, Semitone::Sharp)
    } else {
        (Tone::B, Semitone::Natural)
    }
}

/// The octave of a note number of 12 or more.
pub open spec fn octave_of_pitch(midi: u8) -> Octave
    recommends
        midi >= 12,
{
    Octave((midi / 12 - 1) as u8)
}

/// The octave, tone and accidental of a note number name that number.
pub proof fn lemma_pitch_round_trip(midi: u8)
    requires
        midi >= 12,
    ensures
        pitch(octave_of_pitch(midi), tone_of_pitch(midi).0, tone_of_pitch(midi).1) == midi,
{
}

impl Note {
    /// The note that a tone with an accidental in an octave names, or nothing
    /// where the keyboard has no such key.
    pub fn new2(oct: Octave, tone: Tone, semi: Semitone) -> (note: Option<Note>)
        ensures
            note == (if key_on_keyboard(oct, tone, semi) {
                Some(Note::of(pitch(oct, tone, semi) as u8))
            } else {
                None
            }),
    {
        let base: u16 = (oct.0 as u16 + 1) * 12 + tone.semitones() as u16;
        let midi: u16 = match semi {
            Semitone::Natural => base,
            Semitone::Sharp => base + 1,
            Semitone::Flat => base - 1,
        };
        if midi > NOTE_MAX as u16 {
            None
        } else {
            Note::new(midi as u8)
        }
    }

    /// The octave that the note lies in.
    pub fn octave(&self) -> (oct: Octave)
        ensures
            oct == octave_of_pitch(self.value()),
            oct.0 <= 8,
    {
        proof {
            use_type_invariant(self);
        }
        Octave(self.0 / 12 - 1)
    }

    /// The tone and the accidental of the note, a sharp wherever a black key
    /// could be written either way.
    pub fn tone(&self) -> (name: (Tone, Semitone))
        ensures
            name == tone_of_pitch(self.value()),
    {
        match self.0 % 12 {
            0 => (Tone::C, Semitone::Natural),
            1 => (Tone::C, Semitone::Sharp),
            2 => (Tone::D, Semitone::Natural),
            3 => (Tone::D, Semitone::Sharp),
            4 => (Tone::E, Semitone::Natural),
            5 => (Tone::F, Semitone::Natural),
            6 => (Tone::F, Semitone::Sharp),
            7 => (Tone::G, Semitone::Natural),
            8 => (Tone::G, Semitone::Sharp),
            9 => (Tone::A, Semitone::Natural),
            10 => (Tone::A, Semitone::Sharp),
            _ => (Tone::B, Semitone::Natural),
        }
    }

    /// The name of the note as it is written: the letter of the tone, the
    /// digit of the octave, the sign of the accidental.
    pub fn name(&self) -> (text: String)
        ensures
            text@ == tone_of_pitch(self.value()).0.letter() + octave_of_pitch(self.value()).digit()
                + tone_of_pitch(self.value()).1.sign(),
    {
        let (tone, semi) = self.tone();
        let oct = self.octave();
        let mut text = String::from_str(tone.as_str());
        text.append(oct.as_str());
        text.append(semi.as_str());
        text
    }
}

/// Naming a note by its octave, tone and accidental gives the note back.
pub proof fn lemma_note_round_trip(note: Note)
    requires
        on_keyboard(note.value()),
    ensures
        key_on_keyboard(
            octave_of_pitch(note.value()),
            tone_of_pitch(note.value()).0,
            tone_of_pitch(note.value()).1,
        ),
        Note::of(
            pitch(
                octave_of_pitch(note.value()),
                tone_of_pitch(note.value()).0,
                tone_of_pitch(note.value()).1,
            ) as u8,
        ) == note,
{
    lemma_pitch_round_trip(note.value());
}

/// One of the 88 keys by its name: an octave, a tone and an accidental.
/// A black key has two names, and so have the white keys next to a white key.
#[derive(Clone, Copy, Debug, PartialEq, Eq, Structural, PartialOrd, Ord)]
pub struct Key {
    oct: Octave,
    tone: Tone,
    semi: Semitone,
}

impl Key {
    #[verifier::type_invariant]
    spec fn inv(self) -> bool {
        key_on_keyboard(self.oct, self.tone, self.semi)
    }

    /// The key with the given name.
    pub closed spec fn of(oct: Octave, tone: Tone, semi: Semitone) -> Key {
        Key { oct, tone, semi }
    }

    /// The octave, the tone and the accidental that name the key.
    pub closed spec fn parts(self) -> (Octave, Tone, Semitone) {
        (self.oct, self.tone, self.semi)
    }

    /// A key is known by its name.
    pub proof fn lemma_parts_of(oct: Octave, tone: Tone, semi: Semitone)
        ensures
            Key::of(oct, tone, semi).parts() == (oct, tone, semi),
    {
    }

    /// Whether the keyboard has a key of the given name. In the octaves 1
    /// to 7 every name is a key; octave 0 holds only A, A sharp and the three
    /// forms of B; octave 8 only C flat and C.
    pub fn valid(oct: Octave, tone: Tone, semi: Semitone) -> (valid: bool)
        ensures
            valid == key_on_keyboard(oct, tone, semi),
    {
        if oct.0 >= 1 && oct.0 <= 7 {
            true
        } else if oct.0 == 0 {
            match tone {
                Tone::B => true,
                Tone::A => match semi {
                    Semitone::Flat => false,
                    _ => true,
                },
                _ => false,
            }
        } else if oct.0 == 8 {
            match tone {
                Tone::C => match semi {
                    Semitone::Sharp => false,
                    _ => true,
                },
                _ => false,
            }
        } else {
            false
        }
    }

    /// The key of the given name, which the keyboard must have.
    pub fn new(oct: Octave, tone: Tone, semi: Semitone) -> (key: Key)
        requires
            key_on_keyboard(oct, tone, semi),
        ensures
            key == Key::of(oct, tone, semi),
    {
        Key { oct, tone, semi }
    }

    /// The octave of the key's name.
    pub fn octave(&self) -> (oct: Octave)
        ensures
            oct == self.parts().0,
    {
        self.oct
    }

    /// The tone of the key's name.
    pub fn tone(&self) -> (tone: Tone)
        ensures
            tone == self.parts().1,
    {
        self.tone
    }

    /// The accidental of the key's name.
    pub fn semitone(&self) -> (semi: Semitone)
        ensures
            semi == self.parts().2,
    {
        self.semi
    }

    /// The note that the key sounds.
    pub fn note(&self) -> (note: Note)
        ensures
            key_on_keyboard(self.parts().0, self.parts().1, self.parts().2),
            note == Note::of(pitch(self.parts().0, self.parts().1, self.parts().2) as u8),
    {
        proof {
            use_type_invariant(self);
        }
        let base: u8 = (self.oct.0 + 1) * 12 + self.tone.semitones();
        Note(
            match self.semi {
                Semitone::Natural => base,
                Semitone::Sharp => base + 1,
                Semitone::Flat => base - 1,
            },
        )
    }

    /// The name of the key as it is written: the letter of the tone, the
    /// digit of the octave, the sign of the accidental.
    pub fn name(&self) -> (text: String)
        ensures
            text@ == self.parts().1.letter() + self.parts().0.digit() + self.parts().2.sign(),
    {
        proof {
            use_type_invariant(self);
        }
        let mut text = String::from_str(self.tone.as_str());
        text.append(self.oct.as_str());
        text.append(self.semi.as_str());
        text
    }
}

/// The tone that a letter names.
pub open spec fn tone_of_char(c: char) -> Option<Tone> {
    if c == 'C' {
        Some(Tone::C)
    } else if c == 'D' {
        Some(Tone::D)
    } else if c == 'E' {
        Some(Tone::E)
    } else if c == 'F' {
        Some(Tone::F)
    } else if c == 'G' {
        Some(Tone::G)
    } else if c == 'A' {
        Some(Tone::A)
    } else if c == 'B' {
        Some(Tone::B)
    } else {
        None
    }
}

/// The accidental that a sign stands for: the sharp sign or `#`, the flat
/// sign or `b`. No sign stands for a natural.
pub open spec fn semitone_of_char(c: char) -> Option<Semitone> {
    if c == '\u{266f}' || c == '#' {
        Some(Semitone::Sharp)
    } else if c == '\u{266d}' || c == 'b' {
        Some(Semitone::Flat)
    } else {
        None
    }
}

/// The octave that a decimal digit stands for.
pub open spec fn octave_of_char(c: char) -> Option<Octave> {
    if c == '0' {
        Some(Octave(0))
    } else if c == '1' {
        Some(Octave(1))
    } else if c == '2' {
        Some(Octave(2))
    } else if c == '3' {
        Some(Octave(3))
    } else if c == '4' {
        Some(Octave(4))
    } else if c == '5' {
        Some(Octave(5))
    } else if c == '6' {
        Some(Octave(6))
    } else if c == '7' {
        Some(Octave(7))
    } else if c == '8' {
        Some(Octave(8))
    } else if c == '9' {
        Some(Octave(9))
    } else {
        None
    }
}

/// The octave, tone and accidental that a written name gives.
///
/// A name is a letter from A to G, then the digit of the octave and the sign
/// of the accidental in either order. A natural has no sign, so its name is
/// the letter and the digit. Nothing may follow.
pub open spec fn parse_name(s: Seq<char>) -> Option<(Octave, Tone, Semitone)> {
    if s.len() < 2 || s.len() > 3 {
        None
    } else {
        match tone_of_char(s[0]) {
            None => None,
            Some(tone) => match semitone_of_char(s[1]) {
                Some(semi) => if s.len() == 3 {
                    match octave_of_char(s[2]) {
                        Some(oct) => Some((oct, tone, semi)),
                        None => None,
                    }
                } else {
                    None
                },
                None => match octave_of_char(s[1]) {
                    None => None,
                    Some(oct) => if s.len() == 3 {
                        match semitone_of_char(s[2]) {
                            Some(semi) => Some((oct, tone, semi)),
                            None => None,
                        }
                    } else {
                        Some((oct, tone, Semitone::Natural))
                    },
                },
            },
        }
    }
}

impl Tone {
    /// The tone that a letter names.
    pub fn from_char(c: char) -> (tone: Option<Tone>)
        ensures
            tone == tone_of_char(c),
    {
        if c == 'C' {
            Some(Tone::C)
        } else if c == 'D' {
            Some(Tone::D)
        } else if c == 'E' {
            Some(Tone::E)
        } else if c == 'F' {
            Some(Tone::F)
        } else if c == 'G' {
            Some(Tone::G)
        } else if c == 'A' {
            Some(Tone::A)
        } else if c == 'B' {
            Some(Tone::B)
        } else {
            None
        }
    }
}

impl Semitone {
    /// The accidental that a sign stands for.
    pub fn from_char(c: char) -> (semi: Option<Semitone>)
        ensures
            semi == semitone_of_char(c),
    {
        if c == '\u{266f}' || c == '#' {
            Some(Semitone::Sharp)
        } else if c == '\u{266d}' || c == 'b' {
            Some(Semitone::Flat)
        } else {
            None
        }
    }
}

impl Octave {
    /// The octave that a decimal digit stands for.
    pub fn from_char(c: char) -> (oct: Option<Octave>)
        ensures
            oct == octave_of_char(c),
            oct matches Some(o) ==> o.0 <= 9,
    {
        if c == '0' {
            Some(Octave(0))
        } else if c == '1' {
            Some(Octave(1))
        } else if c == '2' {
            Some(Octave(2))
        } else if c == '3' {
            Some(Octave(3))
        } else if c == '4' {
            Some(Octave(4))
        } else if c == '5' {
            Some(Octave(5))
        } else if c == '6' {
            Some(Octave(6))
        } else if c == '7' {
            Some(Octave(7))
        } else if c == '8' {
            Some(Octave(8))
        } else if c == '9' {
            Some(Octave(9))
        } else {
            None
        }
    }
}

/// The note that a written name gives: the note of its octave, tone and
/// accidental, or a failure where the text is no name or names no key of the
/// keyboard.
pub open spec fn note_of_name(s: Seq<char>) -> Result<Note, ()> {
    match parse_name(s) {
        Some((oct, tone, semi)) => if key_on_keyboard(oct, tone, semi) {
            Ok(Note::of(pitch(oct, tone, semi) as u8))
        } else {
            Err(())
        },
        None => Err(()),
    }
}

/// The key that a written name gives: the key of its octave, tone and
/// accidental, or a failure where the text is no name or names no key of the
/// keyboard.
pub open spec fn key_of_name(s: Seq<char>) -> Result<Key, ()> {
    match parse_name(s) {
        Some((oct, tone, semi)) => if key_on_keyboard(oct, tone, semi) {
            Ok(Key::of(oct, tone, semi))
        } else {
            Err(())
        },
        None => Err(()),
    }
}

/// Reads a written name into its octave, tone and accidental.
pub fn read_name(s: &str) -> (name: Option<(Octave, Tone, Semitone)>)
    ensures
        name == parse_name(s@),
{
    let len = s.unicode_len();
    if len < 2 || len > 3 {
        return None;
    }
    let tone = match Tone::from_char(s.get_char(0)) {
        Some(tone) => tone,
        None => {
            return None;
        },
    };
    let one = s.get_char(1);
    match Semitone::from_char(one) {
        Some(semi) => {
            if len != 3 {
                return None;
            }
            match Octave::from_char(s.get_char(2)) {
                Some(oct) => Some((oct, tone, semi)),
                None => None,
            }
        },
        None => match Octave::from_char(one) {
            None => None,
            Some(oct) => {
                if len == 3 {
                    match Semitone::from_char(s.get_char(2)) {
                        Some(semi) => Some((oct, tone, semi)),
                        None => None,
                    }
                } else {
                    Some((oct, tone, Semitone::Natural))
                }
            },
        },
    }
}

impl Note {
    /// The note that a written name gives, or a failure where the text is no
    /// name or names no key of the keyboard.
    pub fn parse(s: &str) -> (r: Result<Note, ()>)
        ensures
            r == note_of_name(s@),
    {
        match read_name(s) {
            Some((oct, tone, semi)) => match Note::new2(oct, tone, semi) {
                Some(note) => Ok(note),
                None => Err(()),
            },
            None => Err(()),
        }
    }
}

impl Key {
    /// The key that a written name gives, or a failure where the text is no
    /// name or names no key of the keyboard.
    pub fn parse(s: &str) -> (r: Result<Key, ()>)
        ensures
            r == key_of_name(s@),
    {
        match read_name(s) {
            Some((oct, tone, semi)) => if Key::valid(oct, tone, semi) {
                Ok(Key::new(oct, tone, semi))
            } else {
                Err(())
            },
            None => Err(()),
        }
    }
}

impl std::str::FromStr for Note {
    type Err = ();

    /// The note that a written name gives, as `Note::parse` reads it.
    fn from_str(s: &str) -> (r: Result<Note, ()>)
        ensures
            r == note_of_name(s@),
    {
        Note::parse(s)
    }
}

impl std::str::FromStr for Key {
    type Err = ();

    /// The key that a written name gives, as `Key::parse` reads it.
    fn from_str(s: &str) -> (r: Result<Key, ()>)
        ensures
            r == key_of_name(s@),
    {
        Key::parse(s)
    }
}

} // verus!

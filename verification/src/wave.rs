//! The header and the sample frames of an uncompressed WAV file.
//!
//! Samples are handed out as the integers that the file holds. Turning them
//! into amplitudes is left to the caller.

use vstd::prelude::*;
use crate::io::{read_bytes_at, read_i16_le_at, read_u16_le_at, read_u32_le_at, Stream};

verus! {

/// The bytes that the header takes, up to the first sample.
pub const WAV_HEADER_SIZE: usize = 44;

/// The length that the format subchunk states.
pub const FORMAT_LENGTH: u32 = 16;

/// The audio format of uncompressed PCM.
pub const PCM: u16 = 1;

/// The only sample width that is read.
pub const BITS_PER_SAMPLE: u16 = 16;

/// Why reading a WAV file stopped.
#[derive(Clone, Copy, Debug, PartialEq, Eq, Structural)]
pub enum Error {
    /// The bytes end before the value being read is complete.
    Io,
    /// The file does not start with `RIFF`.
    InvalidFileHeader,
    /// The file is not of the form `WAVE`.
    InvalidFileFormat,
    /// The format subchunk does not start with `fmt `.
    InvalidFormatSubchunk,
    /// The format subchunk states a length other than 16.
    InvalidFormatLength,
    /// The samples are not uncompressed PCM.
    NotPcm,
    /// The data subchunk does not start with `data`.
    InvalidDataSubchunk,
    /// The samples are not 16 bits wide.
    UnsupportedSampleWidth,
}

impl Error {
    /// The text that describes the failure.
    pub open spec fn spec_message(self) -> Seq<char> {
        match self {
            Error::Io => "unexpected end of data"@,
            Error::InvalidFileHeader => "Invalid file header(expected RIFF)"@,
            Error::InvalidFileFormat => "Invalid file format(expected WAVE)"@,
            Error::InvalidFormatSubchunk => "Invalid format subchunk(expected \"fmt \")"@,
            Error::InvalidFormatLength => "Invalid fmt subchunk length(expected 16)"@,
            Error::NotPcm => "File is not uncompressed PCM data!"@,
            Error::InvalidDataSubchunk => "Invalid data subchunk(expected \"data\")"@,
            Error::UnsupportedSampleWidth => "Unsupported sample width(expected 16 bits)"@,
        }
    }

    /// A short description of the failure, for display.
    pub fn message(&self) -> (text: &'static str)
        ensures
            text@ == self.spec_message(),
    {
        match self {
            Error::Io => "unexpected end of data",
            Error::InvalidFileHeader => "Invalid file header(expected RIFF)",
            Error::InvalidFileFormat => "Invalid file format(expected WAVE)",
            Error::InvalidFormatSubchunk => "Invalid format subchunk(expected \"fmt \")",
            Error::InvalidFormatLength => "Invalid fmt subchunk length(expected 16)",
            Error::NotPcm => "File is not uncompressed PCM data!",
            Error::InvalidDataSubchunk => "Invalid data subchunk(expected \"data\")",
            Error::UnsupportedSampleWidth => "Unsupported sample width(expected 16 bits)",
        }
    }
}

/// The letters `RIFF`.
pub open spec fn riff_tag() -> Seq<u8> {
    seq![0x52u8, 0x49u8, 0x46u8, 0x46u8]
}

/// The letters `WAVE`.
pub open spec fn wave_tag() -> Seq<u8> {
    seq![0x57u8, 0x41u8, 0x56u8, 0x45u8]
}

/// The letters `fmt` and a space.
pub open spec fn format_tag() -> Seq<u8> {
    seq![0x66u8, 0x6Du8, 0x74u8, 0x20u8]
}

/// The letters `data`.
pub open spec fn data_tag() -> Seq<u8> {
    seq![0x64u8, 0x61u8, 0x74u8, 0x61u8]
}

/// What the header says of the samples.
#[derive(Clone, Copy, Debug, PartialEq, Eq, Structural)]
pub struct WavHeader {
    /// The number of channels in a frame.
    pub num_channels: u16,
    /// The frames per second.
    pub sample_rate: u32,
    /// The bytes that one frame is said to take.
    pub block_align: u16,
    /// The bytes of sample data that the file is said to hold.
    pub data_len: u32,
}

/// The four bytes at `pos`, where they are there.
pub open spec fn tag_at(s: Seq<u8>, pos: int) -> Seq<u8> {
    s.subrange(pos, pos + 4)
}

/// The header that starts at `pos`.
///
/// The fields have fixed places and are little-endian. They are checked in
/// the order in which they stand, but for the sample width, which is checked
/// last; a file that ends before the field being read fails with `Io`.
pub open spec fn wav_header_at(s: Seq<u8>, pos: int) -> Result<WavHeader, Error> {
    if pos < 0 || s.len() < pos + 4 {
        Err(Error::Io)
    } else if tag_at(s, pos) != riff_tag() {
        Err(Error::InvalidFileHeader)
    } else if s.len() < pos + 12 {
        Err(Error::Io)
    } else if tag_at(s, pos + 8) != wave_tag() {
        Err(Error::InvalidFileFormat)
    } else if s.len() < pos + 16 {
        Err(Error::Io)
    } else if tag_at(s, pos + 12) != format_tag() {
        Err(Error::InvalidFormatSubchunk)
    } else if s.len() < pos + 20 {
        Err(Error::Io)
    } else if read_u32_le_at(s, pos + 16) != Ok::<u32, crate::error::Error>(FORMAT_LENGTH) {
        Err(Error::InvalidFormatLength)
    } else if s.len() < pos + 22 {
        Err(Error::Io)
    } else if read_u16_le_at(s, pos + 20) != Ok::<u16, crate::error::Error>(PCM) {
        Err(Error::NotPcm)
    } else if s.len() < pos + 40 {
        Err(Error::Io)
    } else if tag_at(s, pos + 36) != data_tag() {
        Err(Error::InvalidDataSubchunk)
    } else if s.len() < pos + WAV_HEADER_SIZE {
        Err(Error::Io)
    } else if read_u16_le_at(s, pos + 34) != Ok::<u16, crate::error::Error>(BITS_PER_SAMPLE) {
        Err(Error::UnsupportedSampleWidth)
    } else {
        Ok(
            WavHeader {
                num_channels: read_u16_le_at(s, pos + 22)->Ok_0,
                sample_rate: read_u32_le_at(s, pos + 24)->Ok_0,
                block_align: read_u16_le_at(s, pos + 32)->Ok_0,
                data_len: read_u32_le_at(s, pos + 40)->Ok_0,
            },
        )
    }
}

/// The frame at `pos`: one signed 16-bit sample for each channel.
pub open spec fn frame_at(s: Seq<u8>, pos: int, channels: u16) -> Result<Seq<i16>, Error> {
    if 0 <= pos && pos + 2 * channels <= s.len() {
        Ok(Seq::new(channels as nat, |i: int| read_i16_le_at(s, pos + 2 * i)->Ok_0))
    } else {
        Err(Error::Io)
    }
}

/// The bytes of sample data that are left after a frame, given that `left`
/// were left before it: a frame takes what the header says a frame takes,
/// and a last frame that the data length cuts short takes the rest.
pub open spec fn left_after_frame(left: u32, block_align: u16) -> u32 {
    if left >= block_align {
        (left - block_align) as u32
    } else {
        0
    }
}

/// Maps the failure of a read to a failure of this module: the stream fails
/// only where the bytes end.
fn io<T>(r: Result<T, crate::error::Error>) -> (out: Result<T, Error>)
    ensures
        match r {
            Ok(value) => out == Ok::<T, Error>(value),
            Err(_) => out == Err::<T, Error>(Error::Io),
        },
{
    match r {
        Ok(value) => Ok(value),
        Err(_) => Err(Error::Io),
    }
}

impl WavHeader {
    /// Reads and checks the header. After a failure the cursor is of no
    /// further use.
    pub fn read(stream: &mut Stream) -> (r: Result<WavHeader, Error>)
        ensures
            final(stream).bytes() == old(stream).bytes(),
            r == wav_header_at(old(stream).bytes(), old(stream).offset() as int),
            r is Ok ==> final(stream).offset() == old(stream).offset() + WAV_HEADER_SIZE,
    {
        let riff: [u8; 4] = [0x52, 0x49, 0x46, 0x46];
        let wave: [u8; 4] = [0x57, 0x41, 0x56, 0x45];
        let format: [u8; 4] = [0x66, 0x6D, 0x74, 0x20];
        let data: [u8; 4] = [0x64, 0x61, 0x74, 0x61];
        proof {
            assert(riff@ =~= riff_tag());
            assert(wave@ =~= wave_tag());
            assert(format@ =~= format_tag());
            assert(data@ =~= data_tag());
        }
        if !io(stream.read_tag(&riff))? {
            return Err(Error::InvalidFileHeader);
        }
        let _len = io(stream.read_u32_le())?;
        if !io(stream.read_tag(&wave))? {
            return Err(Error::InvalidFileFormat);
        }
        if !io(stream.read_tag(&format))? {
            return Err(Error::InvalidFormatSubchunk);
        }
        if io(stream.read_u32_le())? != FORMAT_LENGTH {
            return Err(Error::InvalidFormatLength);
        }
        if io(stream.read_u16_le())? != PCM {
            return Err(Error::NotPcm);
        }
        let num_channels = io(stream.read_u16_le())?;
        let sample_rate = io(stream.read_u32_le())?;
        let _byte_rate = io(stream.read_u32_le())?;
        let block_align = io(stream.read_u16_le())?;
        let bits_per_sample = io(stream.read_u16_le())?;
        if !io(stream.read_tag(&data))? {
            return Err(Error::InvalidDataSubchunk);
        }
        let data_len = io(stream.read_u32_le())?;
        if bits_per_sample != BITS_PER_SAMPLE {
            return Err(Error::UnsupportedSampleWidth);
        }
        Ok(WavHeader { num_channels, sample_rate, block_align, data_len })
    }
}

/// A WAV file being read, frame by frame.
pub struct WavFile {
    stream: Stream,
    header: WavHeader,
    left: u32,
}

impl WavFile {
    /// The bytes of the file.
    pub closed spec fn bytes(&self) -> Seq<u8> {
        self.stream.bytes()
    }

    /// What the header said.
    pub closed spec fn spec_header(&self) -> WavHeader {
        self.header
    }

    /// The position of the next frame.
    pub closed spec fn offset(&self) -> nat {
        self.stream.offset()
    }

    /// The bytes of sample data that are still to be read.
    pub closed spec fn left(&self) -> u32 {
        self.left
    }

    /// Opens the file that `stream` is about to read: checks the header and
    /// stops before the first frame.
    pub fn new(stream: Stream) -> (r: Result<WavFile, Error>)
        ensures
            match r {
                Ok(file) => {
                    &&& file.bytes() == stream.bytes()
                    &&& wav_header_at(stream.bytes(), stream.offset() as int) == Ok::<
                        WavHeader,
                        Error,
                    >(file.spec_header())
                    &&& file.offset() == stream.offset() + WAV_HEADER_SIZE
                    &&& file.left() == file.spec_header().data_len
                },
                Err(e) => wav_header_at(stream.bytes(), stream.offset() as int) == Err::<
                    WavHeader,
                    Error,
                >(e),
            },
    {
        let mut stream = stream;
        let header = WavHeader::read(&mut stream)?;
        Ok(WavFile { stream, header, left: header.data_len })
    }

    /// What the header said.
    pub fn header(&self) -> (header: WavHeader)
        ensures
            header == self.spec_header(),
    {
        self.header
    }

    /// The frames per second.
    pub fn sample_rate(&self) -> (rate: u32)
        ensures
            rate == self.spec_header().sample_rate,
    {
        self.header.sample_rate
    }

    /// The bytes of sample data that are still to be read.
    pub fn bytes_left(&self) -> (left: u32)
        ensures
            left == self.left(),
    {
        self.left
    }

    /// Reads one signed 16-bit sample.
    fn read_sample_16(stream: &mut Stream) -> (r: Result<i16, Error>)
        ensures
            final(stream).bytes() == old(stream).bytes(),
            match r {
                Ok(sample) => {
                    &&& read_i16_le_at(old(stream).bytes(), old(stream).offset() as int) == Ok::<
                        i16,
                        crate::error::Error,
                    >(sample)
                    &&& final(stream).offset() == old(stream).offset() + 2
                },
                Err(e) => {
                    &&& e == Error::Io
                    &&& read_i16_le_at(old(stream).bytes(), old(stream).offset() as int) is Err
                    &&& final(stream).offset() == old(stream).offset()
                },
            },
    {
        io(stream.read_i16_le())
    }

    /// The next frame: the samples of its channels in the order in which
    /// they stand, or nothing once the sample data are used up. After a
    /// failure the file is of no further use.
    pub fn next_frame(&mut self) -> (r: Result<Option<Vec<i16>>, Error>)
        ensures
            final(self).bytes() == old(self).bytes(),
            final(self).spec_header() == old(self).spec_header(),
            match r {
                Ok(None) => {
                    &&& old(self).left() == 0
                    &&& final(self).left() == 0
                    &&& final(self).offset() == old(self).offset()
                },
                Ok(Some(frame)) => {
                    &&& old(self).left() != 0
                    &&& frame_at(
                        old(self).bytes(),
                        old(self).offset() as int,
                        old(self).spec_header().num_channels,
                    ) == Ok::<Seq<i16>, Error>(frame@)
                    &&& final(self).offset() == old(self).offset() + 2
                        * old(self).spec_header().num_channels
                    &&& final(self).left() == left_after_frame(
                        old(self).left(),
                        old(self).spec_header().block_align,
                    )
                },
                Err(e) => {
                    &&& old(self).left() != 0
                    &&& frame_at(
                        old(self).bytes(),
                        old(self).offset() as int,
                        old(self).spec_header().num_channels,
                    ) == Err::<Seq<i16>, Error>(e)
                },
            },
    {
        if self.left == 0 {
            return Ok(None);
        }
        let start = self.stream.position();
        let channels = self.header.num_channels;
        let mut frame: Vec<i16> = Vec::new();
        let mut i: u16 = 0;
        while i < channels
            invariant
                i <= channels,
                channels == self.header.num_channels,
                self.header == old(self).header,
                self.left == old(self).left,
                self.left != 0,
                self.stream.bytes() == old(self).stream.bytes(),
                start == old(self).stream.offset(),
                start <= self.stream.bytes().len(),
                self.stream.offset() == start + 2 * i,
                frame@.len() == i,
                forall|j: int|
                    0 <= j < i ==> read_i16_le_at(self.stream.bytes(), start + 2 * j) == Ok::<
                        i16,
                        crate::error::Error,
                    >(#[trigger] frame@[j]),
            decreases channels - i,
        {
            let sample = WavFile::read_sample_16(&mut self.stream)?;
            frame.push(sample);
            i = i + 1;
        }
        // the cursor lies within the bytes, so the whole frame was there
        let _end: usize = self.stream.position();
        self.left = if self.left >= self.header.block_align as u32 {
            self.left - self.header.block_align as u32
        } else {
            0
        };
        assert(frame@ =~= frame_at(self.stream.bytes(), start as int, channels)->Ok_0);
        Ok(Some(frame))
    }
}

} // verus!

//! Chunks: the tagged, length-prefixed sections of a file, and the header.

use vstd::prelude::*;
use crate::clock::usable_division;
use crate::error::Error;
use crate::io::{read_bytes_at, read_u16_at, read_u32_at, Stream};

verus! {

/// The bytes a chunk takes before its content: a tag and a length.
pub const CHUNK_PREFIX: usize = 8;

/// The length that the header chunk states.
pub const HEADER_LENGTH: u32 = 6;

/// The bytes the header chunk takes, prefix and all.
pub const HEADER_SIZE: usize = 14;

/// The tag of the header chunk, the letters `MThd`.
pub open spec fn header_tag() -> Seq<u8> {
    seq![0x4Du8, 0x54u8, 0x68u8, 0x64u8]
}

/// The tag of a track chunk, the letters `MTrk`.
pub open spec fn track_tag() -> Seq<u8> {
    seq![0x4Du8, 0x54u8, 0x72u8, 0x6Bu8]
}

/// The length that the chunk at `pos` states, given that it is to carry
/// `tag`. Fails with `InvalidChunkTag` where four bytes are there and are not
/// the tag, and with `Io` where the bytes end before the tag or the length
/// is whole.
pub open spec fn chunk_at(s: Seq<u8>, pos: int, tag: Seq<u8>) -> Result<u32, Error> {
    match read_bytes_at(s, pos, 4) {
        Err(e) => Err(e),
        Ok(found) => if found != tag {
            Err(Error::InvalidChunkTag)
        } else {
            read_u32_at(s, pos + 4)
        },
    }
}

/// What the header chunk says of a file.
#[derive(Clone, Copy, Debug, PartialEq, Eq, Structural)]
pub struct Header {
    /// 0 for a file of one track, 1 for tracks that belong together.
    pub format: u16,
    /// The number of track chunks that follow.
    pub tracks: u16,
    /// The pulses per quarter note.
    pub division: u16,
}

impl Header {
    /// What a header that has been accepted holds.
    pub open spec fn wf(self) -> bool {
        self.format <= 1 && usable_division(self.division)
    }
}

/// The header whose chunk starts at `pos`. Each field is checked as soon
/// as it is read: the tag, the length, which is 6, the format, which is 0 or
/// 1, and after the track count the division, which counts pulses per
/// quarter note.
pub open spec fn header_at(s: Seq<u8>, pos: int) -> Result<Header, Error> {
    match chunk_at(s, pos, header_tag()) {
        Err(e) => Err(e),
        Ok(len) => if len != HEADER_LENGTH {
            Err(Error::InvalidHeaderLength)
        } else {
            match read_u16_at(s, pos + 8) {
                Err(e) => Err(e),
                Ok(format) => if format > 1 {
                    Err(Error::UnsupportedFormat)
                } else {
                    match read_u16_at(s, pos + 10) {
                        Err(e) => Err(e),
                        Ok(tracks) => match read_u16_at(s, pos + 12) {
                            Err(e) => Err(e),
                            Ok(division) => if usable_division(division) {
                                Ok(Header { format, tracks, division })
                            } else {
                                Err(Error::UnsupportedTimingMode)
                            },
                        },
                    }
                },
            }
        },
    }
}

/// The tag of the header chunk.
pub fn header_tag_bytes() -> (tag: [u8; 4])
    ensures
        tag@ == header_tag(),
{
    let tag: [u8; 4] = [0x4D, 0x54, 0x68, 0x64];
    assert(tag@ =~= header_tag());
    tag
}

/// The tag of a track chunk.
pub fn track_tag_bytes() -> (tag: [u8; 4])
    ensures
        tag@ == track_tag(),
{
    let tag: [u8; 4] = [0x4D, 0x54, 0x72, 0x6B];
    assert(tag@ =~= track_tag());
    tag
}

/// Reads the tag and the length of a chunk and returns the length, given the
/// tag that is due. After a failure the cursor is of no further use.
pub fn expect_chunk(stream: &mut Stream, tag: &[u8; 4]) -> (r: Result<u32, Error>)
    ensures
        final(stream).bytes() == old(stream).bytes(),
        r == chunk_at(old(stream).bytes(), old(stream).offset() as int, tag@),
        r is Ok ==> final(stream).offset() == old(stream).offset() + CHUNK_PREFIX,
{
    if !stream.read_tag(tag)? {
        return Err(Error::InvalidChunkTag);
    }
    stream.read_u32()
}

impl Header {
    /// Reads and checks the header chunk. After a failure the cursor is of
    /// no further use.
    pub fn read(stream: &mut Stream) -> (r: Result<Header, Error>)
        ensures
            final(stream).bytes() == old(stream).bytes(),
            r == header_at(old(stream).bytes(), old(stream).offset() as int),
            r is Ok ==> final(stream).offset() == old(stream).offset() + HEADER_SIZE,
            r matches Ok(header) ==> header.wf(),
    {
        let tag = header_tag_bytes();
        let len = expect_chunk(stream, &tag)?;
        if len != HEADER_LENGTH {
            return Err(Error::InvalidHeaderLength);
        }
        let format = stream.read_u16()?;
        if format > 1 {
            return Err(Error::UnsupportedFormat);
        }
        let tracks = stream.read_u16()?;
        let division = stream.read_u16()?;
        if division == 0 || division >= 0x8000 {
            return Err(Error::UnsupportedTimingMode);
        }
        Ok(Header { format, tracks, division })
    }
}

} // verus!

//! A cursor over the bytes of a file held in memory.

use vstd::prelude::*;
use crate::error::Error;

verus! {

/// The largest number of bytes a variable-length quantity may take.
pub const VLQ_MAX_BYTES: usize = 5;

/// The byte at `pos`, or the failure of a read that starts at or past the end.
pub open spec fn read_u8_at(s: Seq<u8>, pos: int) -> Result<u8, Error> {
    if 0 <= pos < s.len() {
        Ok(s[pos])
    } else {
        Err(Error::Io)
    }
}

/// The big-endian 16-bit number in the two bytes from `pos` on.
pub open spec fn read_u16_at(s: Seq<u8>, pos: int) -> Result<u16, Error> {
    if 0 <= pos && pos + 2 <= s.len() {
        Ok((s[pos] * 0x100 + s[pos + 1]) as u16)
    } else {
        Err(Error::Io)
    }
}

/// The big-endian 32-bit number in the four bytes from `pos` on.
pub open spec fn read_u32_at(s: Seq<u8>, pos: int) -> Result<u32, Error> {
    if 0 <= pos && pos + 4 <= s.len() {
        Ok((s[pos] * 0x100_0000 + s[pos + 1] * 0x1_0000 + s[pos + 2] * 0x100 + s[pos + 3]) as u32)
    } else {
        Err(Error::Io)
    }
}

/// The little-endian 16-bit number in the two bytes from `pos` on.
pub open spec fn read_u16_le_at(s: Seq<u8>, pos: int) -> Result<u16, Error> {
    if 0 <= pos && pos + 2 <= s.len() {
        Ok((s[pos] + s[pos + 1] * 0x100) as u16)
    } else {
        Err(Error::Io)
    }
}

/// The little-endian 32-bit number in the four bytes from `pos` on.
pub open spec fn read_u32_le_at(s: Seq<u8>, pos: int) -> Result<u32, Error> {
    if 0 <= pos && pos + 4 <= s.len() {
        Ok((s[pos] + s[pos + 1] * 0x100 + s[pos + 2] * 0x1_0000 + s[pos + 3] * 0x100_0000) as u32)
    } else {
        Err(Error::Io)
    }
}

/// The signed number that 16 bits stand for in two's complement.
pub open spec fn signed16(bits: u16) -> i16 {
    if bits >= 0x8000 {
        (bits - 0x1_0000) as i16
    } else {
        bits as i16
    }
}

/// The little-endian signed 16-bit number in the two bytes from `pos` on.
pub open spec fn read_i16_le_at(s: Seq<u8>, pos: int) -> Result<i16, Error> {
    match read_u16_le_at(s, pos) {
        Ok(bits) => Ok(signed16(bits)),
        Err(e) => Err(e),
    }
}

/// The `n` bytes from `pos` on.
pub open spec fn read_bytes_at(s: Seq<u8>, pos: int, n: int) -> Result<Seq<u8>, Error> {
    if 0 <= pos && 0 <= n && pos + n <= s.len() {
        Ok(s.subrange(pos, pos + n))
    } else {
        Err(Error::Io)
    }
}

/// Whether a byte of a variable-length quantity says that another follows.
pub open spec fn continues(b: u8) -> bool {
    b >= 0x80
}

/// The seven bits that a byte adds to a variable-length quantity.
pub open spec fn payload(b: u8) -> int {
    (b % 0x80) as int
}

/// The variable-length quantity that starts at `pos`, given that `taken` of
/// its bytes lie before `pos` and carry the value `acc`: the value and the
/// position behind its last byte.
///
/// Each byte gives seven bits, most significant group first, and a set top
/// bit says that another byte follows. The quantity ends with the first byte
/// whose top bit is clear. It fails with `Io` where the bytes end first, and
/// with `VlqOverflow` where five bytes have gone by and the fifth still asks
/// for more.
pub open spec fn vlq_from(s: Seq<u8>, pos: int, acc: int, taken: int) -> Result<(u64, int), Error>
    decreases VLQ_MAX_BYTES - taken,
{
    if taken >= VLQ_MAX_BYTES {
        Err(Error::VlqOverflow)
    } else if !(0 <= pos < s.len()) {
        Err(Error::Io)
    } else if continues(s[pos]) {
        vlq_from(s, pos + 1, acc * 0x80 + payload(s[pos]), taken + 1)
    } else {
        Ok(((acc * 0x80 + payload(s[pos])) as u64, pos + 1))
    }
}

/// The variable-length quantity that starts at `pos`.
pub open spec fn vlq_at(s: Seq<u8>, pos: int) -> Result<(u64, int), Error> {
    vlq_from(s, pos, 0, 0)
}

/// A bound that the value of the first `taken` bytes of a variable-length
/// quantity stays under: seven bits for each byte.
pub open spec fn vlq_limit(taken: int) -> int {
    if taken <= 0 {
        1
    } else if taken == 1 {
        0x80
    } else if taken == 2 {
        0x4000
    } else if taken == 3 {
        0x20_0000
    } else if taken == 4 {
        0x1000_0000
    } else {
        0x8_0000_0000
    }
}

/// What is left of a variable-length quantity after `taken` bytes takes at
/// least one byte more and at most five in all, each of them present, and
/// the value stays under 35 bits.
pub proof fn lemma_vlq_from_bounds(s: Seq<u8>, pos: int, acc: int, taken: int)
    requires
        0 <= taken <= VLQ_MAX_BYTES,
        0 <= acc < vlq_limit(taken),
        vlq_from(s, pos, acc, taken) is Ok,
    ensures
        ({
            let (value, next) = vlq_from(s, pos, acc, taken)->Ok_0;
            &&& value < 0x8_0000_0000
            &&& pos < next <= pos + (VLQ_MAX_BYTES - taken)
            &&& 0 <= pos
            &&& next <= s.len()
        }),
    decreases VLQ_MAX_BYTES - taken,
{
    if taken < VLQ_MAX_BYTES && 0 <= pos < s.len() && continues(s[pos]) {
        lemma_vlq_from_bounds(s, pos + 1, acc * 0x80 + payload(s[pos]), taken + 1);
    }
}

/// A variable-length quantity that decodes takes one to five bytes, all of
/// them present, and its value has at most 35 bits.
pub proof fn lemma_vlq_bounds(s: Seq<u8>, pos: int)
    requires
        vlq_at(s, pos) is Ok,
    ensures
        ({
            let (value, next) = vlq_at(s, pos)->Ok_0;
            &&& value < 0x8_0000_0000
            &&& 0 <= pos < next <= pos + VLQ_MAX_BYTES
            &&& next <= s.len()
        }),
{
    lemma_vlq_from_bounds(s, pos, 0, 0);
}

/// The bytes of a file and the place in them where the next read starts.
///
/// A number is read big-endian unless the read says otherwise. A read either
/// succeeds and moves the cursor past exactly the bytes it took, or fails and
/// leaves the cursor where it was.
pub struct Stream {
    data: Vec<u8>,
    pos: usize,
}

impl Stream {
    #[verifier::type_invariant]
    spec fn inv(&self) -> bool {
        self.pos <= self.data.len()
    }

    /// All the bytes, read or not.
    pub closed spec fn bytes(&self) -> Seq<u8> {
        self.data@
    }

    /// How many bytes lie behind the cursor.
    pub closed spec fn offset(&self) -> nat {
        self.pos as nat
    }

    /// A cursor at the start of `data`.
    pub fn new(data: Vec<u8>) -> (stream: Stream)
        ensures
            stream.bytes() == data@,
            stream.offset() == 0,
    {
        Stream { data, pos: 0 }
    }

    /// The number of bytes read so far.
    pub fn position(&self) -> (pos: usize)
        ensures
            pos == self.offset(),
            pos <= self.bytes().len(),
    {
        proof {
            use_type_invariant(self);
        }
        self.pos
    }

    /// The number of bytes still to be read.
    pub fn remaining(&self) -> (n: usize)
        ensures
            n == self.bytes().len() - self.offset(),
    {
        proof {
            use_type_invariant(self);
        }
        self.data.len() - self.pos
    }

    /// Reads one byte.
    pub fn read_u8(&mut self) -> (r: Result<u8, Error>)
        ensures
            final(self).bytes() == old(self).bytes(),
            r == read_u8_at(old(self).bytes(), old(self).offset() as int),
            final(self).offset() == old(self).offset() + (if r is Ok { 1nat } else { 0 }),
    {
        proof {
            use_type_invariant(&*self);
        }
        if self.pos < self.data.len() {
            let b = self.data[self.pos];
            self.pos = self.pos + 1;
            Ok(b)
        } else {
            Err(Error::Io)
        }
    }

    /// Reads a big-endian 16-bit number.
    pub fn read_u16(&mut self) -> (r: Result<u16, Error>)
        ensures
            final(self).bytes() == old(self).bytes(),
            r == read_u16_at(old(self).bytes(), old(self).offset() as int),
            final(self).offset() == old(self).offset() + (if r is Ok { 2nat } else { 0 }),
    {
        proof {
            use_type_invariant(&*self);
        }
        if self.data.len() - self.pos < 2 {
            return Err(Error::Io);
        }
        let hi: u16 = self.data[self.pos] as u16;
        let lo: u16 = self.data[self.pos + 1] as u16;
        self.pos = self.pos + 2;
        Ok(hi * 0x100 + lo)
    }

    /// Reads a big-endian 32-bit number.
    pub fn read_u32(&mut self) -> (r: Result<u32, Error>)
        ensures
            final(self).bytes() == old(self).bytes(),
            r == read_u32_at(old(self).bytes(), old(self).offset() as int),
            final(self).offset() == old(self).offset() + (if r is Ok { 4nat } else { 0 }),
    {
        proof {
            use_type_invariant(&*self);
        }
        if self.data.len() - self.pos < 4 {
            return Err(Error::Io);
        }
        let a: u32 = self.data[self.pos] as u32;
        let b: u32 = self.data[self.pos + 1] as u32;
        let c: u32 = self.data[self.pos + 2] as u32;
        let d: u32 = self.data[self.pos + 3] as u32;
        self.pos = self.pos + 4;
        Ok(a * 0x100_0000 + b * 0x1_0000 + c * 0x100 + d)
    }

    /// Reads a little-endian 16-bit number.
    pub fn read_u16_le(&mut self) -> (r: Result<u16, Error>)
        ensures
            final(self).bytes() == old(self).bytes(),
            r == read_u16_le_at(old(self).bytes(), old(self).offset() as int),
            final(self).offset() == old(self).offset() + (if r is Ok { 2nat } else { 0 }),
    {
        proof {
            use_type_invariant(&*self);
        }
        if self.data.len() - self.pos < 2 {
            return Err(Error::Io);
        }
        let lo: u16 = self.data[self.pos] as u16;
        let hi: u16 = self.data[self.pos + 1] as u16;
        self.pos = self.pos + 2;
        Ok(lo + hi * 0x100)
    }

    /// Reads a little-endian 32-bit number.
    pub fn read_u32_le(&mut self) -> (r: Result<u32, Error>)
        ensures
            final(self).bytes() == old(self).bytes(),
            r == read_u32_le_at(old(self).bytes(), old(self).offset() as int),
            final(self).offset() == old(self).offset() + (if r is Ok { 4nat } else { 0 }),
    {
        proof {
            use_type_invariant(&*self);
        }
        if self.data.len() - self.pos < 4 {
            return Err(Error::Io);
        }
        let a: u32 = self.data[self.pos] as u32;
        let b: u32 = self.data[self.pos + 1] as u32;
        let c: u32 = self.data[self.pos + 2] as u32;
        let d: u32 = self.data[self.pos + 3] as u32;
        self.pos = self.pos + 4;
        Ok(a + b * 0x100 + c * 0x1_0000 + d * 0x100_0000)
    }

    /// Reads a little-endian signed 16-bit number in two's complement.
    pub fn read_i16_le(&mut self) -> (r: Result<i16, Error>)
        ensures
            final(self).bytes() == old(self).bytes(),
            r == read_i16_le_at(old(self).bytes(), old(self).offset() as int),
            final(self).offset() == old(self).offset() + (if r is Ok { 2nat } else { 0 }),
    {
        let bits = self.read_u16_le()?;
        if bits >= 0x8000 {
            Ok(((bits - 0x8000) as i16) - 0x4000 - 0x4000)
        } else {
            Ok(bits as i16)
        }
    }

    /// Reads `N` bytes into an array.
    pub fn readn<const N: usize>(&mut self) -> (r: Result<[u8; N], Error>)
        ensures
            final(self).bytes() == old(self).bytes(),
            match r {
                Ok(out) => {
                    &&& read_bytes_at(old(self).bytes(), old(self).offset() as int, N as int) == Ok::<Seq<u8>, Error>(out@)
                    &&& final(self).offset() == old(self).offset() + N
                },
                Err(e) => {
                    &&& read_bytes_at(old(self).bytes(), old(self).offset() as int, N as int) == Err::<Seq<u8>, Error>(e)
                    &&& final(self).offset() == old(self).offset()
                },
            },
    {
        proof {
            use_type_invariant(&*self);
        }
        if self.data.len() - self.pos < N {
            return Err(Error::Io);
        }
        let start = self.pos;
        let mut out = [0u8; N];
        let mut i: usize = 0;
        while i < N
            invariant
                i <= N,
                start + N <= self.data.len(),
                forall|j: int| 0 <= j < i ==> out@[j] == self.data@[start + j],
            decreases N - i,
        {
            out[i] = self.data[start + i];
            i = i + 1;
        }
        self.pos = start + N;
        assert(out@ =~= self.data@.subrange(start as int, start + N));
        Ok(out)
    }

    /// Reads four bytes and says whether they are `tag`.
    pub fn read_tag(&mut self, tag: &[u8; 4]) -> (r: Result<bool, Error>)
        ensures
            final(self).bytes() == old(self).bytes(),
            match r {
                Ok(same) => {
                    &&& read_bytes_at(old(self).bytes(), old(self).offset() as int, 4) matches Ok(found)
                    &&& same == (found == tag@)
                    &&& final(self).offset() == old(self).offset() + 4
                },
                Err(e) => {
                    &&& read_bytes_at(old(self).bytes(), old(self).offset() as int, 4) == Err::<
                        Seq<u8>,
                        Error,
                    >(e)
                    &&& final(self).offset() == old(self).offset()
                },
            },
    {
        let found = self.readn::<4>()?;
        let same = found[0] == tag[0] && found[1] == tag[1] && found[2] == tag[2] && found[3]
            == tag[3];
        assert(same == (found@ =~= tag@));
        Ok(same)
    }

    /// Reads exactly as many bytes as `buf` holds, into `buf`. On failure
    /// `buf` is left as it was.
    pub fn read_into(&mut self, buf: &mut [u8]) -> (r: Result<(), Error>)
        ensures
            final(self).bytes() == old(self).bytes(),
            final(buf)@.len() == old(buf)@.len(),
            match r {
                Ok(_) => {
                    &&& read_bytes_at(old(self).bytes(), old(self).offset() as int, old(buf)@.len() as int)
                        == Ok::<Seq<u8>, Error>(final(buf)@)
                    &&& final(self).offset() == old(self).offset() + old(buf)@.len()
                },
                Err(e) => {
                    &&& read_bytes_at(old(self).bytes(), old(self).offset() as int, old(buf)@.len() as int)
                        == Err::<Seq<u8>, Error>(e)
                    &&& final(self).offset() == old(self).offset()
                    &&& final(buf)@ == old(buf)@
                },
            },
    {
        proof {
            use_type_invariant(&*self);
        }
        let n = buf.len();
        if self.data.len() - self.pos < n {
            return Err(Error::Io);
        }
        let start = self.pos;
        let mut i: usize = 0;
        while i < n
            invariant
                i <= n,
                n == buf@.len(),
                start + n <= self.data.len(),
                forall|j: int| 0 <= j < i ==> buf@[j] == self.data@[start + j],
            decreases n - i,
        {
            buf[i] = self.data[start + i];
            i = i + 1;
        }
        self.pos = start + n;
        assert(buf@ =~= self.data@.subrange(start as int, start + n));
        Ok(())
    }

    /// Reads a variable-length quantity of at most five bytes.
    pub fn read_vlq(&mut self) -> (r: Result<u64, Error>)
        ensures
            final(self).bytes() == old(self).bytes(),
            match r {
                Ok(value) => vlq_at(old(self).bytes(), old(self).offset() as int)
                    == Ok::<(u64, int), Error>((value, final(self).offset() as int)),
                Err(e) => {
                    &&& vlq_at(old(self).bytes(), old(self).offset() as int) == Err::<(u64, int), Error>(e)
                    &&& final(self).offset() == old(self).offset()
                },
            },
    {
        let start = self.position();
        let mut acc: u64 = 0;
        let mut taken: usize = 0;
        while taken < VLQ_MAX_BYTES
            invariant
                taken <= VLQ_MAX_BYTES,
                self.bytes() == old(self).bytes(),
                start == old(self).offset(),
                start <= self.bytes().len(),
                self.offset() == start + taken,
                acc < vlq_limit(taken as int),
                vlq_from(self.bytes(), self.offset() as int, acc as int, taken as int)
                    == vlq_at(old(self).bytes(), old(self).offset() as int),
            decreases VLQ_MAX_BYTES - taken,
        {
            let b = match self.read_u8() {
                Ok(b) => b,
                Err(e) => {
                    self.pos = start;
                    return Err(e);
                },
            };
            assert(b & 0x80 == 0 <==> b < 0x80) by (bit_vector);
            assert((acc << 7) | ((b & 0x7f) as u64) == acc * 0x80 + (b % 0x80) as u64) by (bit_vector)
                requires
                    acc < 0x1000_0000,
            ;
            acc = (acc << 7) | ((b & 0x7f) as u64);
            if b & 0x80 == 0 {
                return Ok(acc);
            }
            taken = taken + 1;
        }
        self.pos = start;
        Err(Error::VlqOverflow)
    }

    /// Moves the cursor `n` bytes on without looking at them. Fails, and
    /// stays, where fewer than `n` bytes are left.
    pub fn seek_forward(&mut self, n: u64) -> (r: Result<(), Error>)
        ensures
            final(self).bytes() == old(self).bytes(),
            r is Ok <==> old(self).offset() + n <= old(self).bytes().len(),
            r is Err ==> r == Err::<(), Error>(Error::Io),
            final(self).offset() == old(self).offset() + (if r is Ok { n as nat } else { 0 }),
    {
        proof {
            use_type_invariant(&*self);
        }
        let left = self.data.len() - self.pos;
        if n > left as u64 {
            return Err(Error::Io);
        }
        self.pos = self.pos + n as usize;
        Ok(())
    }
}

/// Marks a read as big-endian: the most significant byte comes first.
pub struct BigEndian;

/// Marks a read as little-endian: the least significant byte comes first.
pub struct LittleEndian;

/// Marks a read of a variable-length quantity, which gives a `u64`.
pub struct VarInt;

/// A value that can be read from a stream in the byte order `E`.
pub trait FromStream<E>: Sized {
    /// What a read gives; most often the type itself.
    type Out;

    /// The value that starts at `pos` and the position behind it, or the
    /// failure of the read.
    spec fn parse_at(s: Seq<u8>, pos: int) -> Result<(Self::Out, int), Error>;

    /// Reads the value at the cursor. A read that fails leaves the cursor
    /// where it was.
    fn parse(stream: &mut Stream) -> (r: Result<Self::Out, Error>)
        ensures
            final(stream).bytes() == old(stream).bytes(),
            match r {
                Ok(value) => Self::parse_at(old(stream).bytes(), old(stream).offset() as int) == Ok::<
                    (Self::Out, int),
                    Error,
                >((value, final(stream).offset() as int)),
                Err(e) => {
                    &&& Self::parse_at(old(stream).bytes(), old(stream).offset() as int) == Err::<
                        (Self::Out, int),
                        Error,
                    >(e)
                    &&& final(stream).offset() == old(stream).offset()
                },
            },
    ;
}

impl<E> FromStream<E> for u8 {
    type Out = u8;

    open spec fn parse_at(s: Seq<u8>, pos: int) -> Result<(u8, int), Error> {
        match read_u8_at(s, pos) {
            Ok(value) => Ok((value, pos + 1)),
            Err(e) => Err(e),
        }
    }

    fn parse(stream: &mut Stream) -> (r: Result<u8, Error>) {
        stream.read_u8()
    }
}

impl FromStream<BigEndian> for u16 {
    type Out = u16;

    open spec fn parse_at(s: Seq<u8>, pos: int) -> Result<(u16, int), Error> {
        match read_u16_at(s, pos) {
            Ok(value) => Ok((value, pos + 2)),
            Err(e) => Err(e),
        }
    }

    fn parse(stream: &mut Stream) -> (r: Result<u16, Error>) {
        stream.read_u16()
    }
}

impl FromStream<LittleEndian> for u16 {
    type Out = u16;

    open spec fn parse_at(s: Seq<u8>, pos: int) -> Result<(u16, int), Error> {
        match read_u16_le_at(s, pos) {
            Ok(value) => Ok((value, pos + 2)),
            Err(e) => Err(e),
        }
    }

    fn parse(stream: &mut Stream) -> (r: Result<u16, Error>) {
        stream.read_u16_le()
    }
}

impl FromStream<LittleEndian> for i16 {
    type Out = i16;

    open spec fn parse_at(s: Seq<u8>, pos: int) -> Result<(i16, int), Error> {
        match read_i16_le_at(s, pos) {
            Ok(value) => Ok((value, pos + 2)),
            Err(e) => Err(e),
        }
    }

    fn parse(stream: &mut Stream) -> (r: Result<i16, Error>) {
        stream.read_i16_le()
    }
}

impl FromStream<BigEndian> for u32 {
    type Out = u32;

    open spec fn parse_at(s: Seq<u8>, pos: int) -> Result<(u32, int), Error> {
        match read_u32_at(s, pos) {
            Ok(value) => Ok((value, pos + 4)),
            Err(e) => Err(e),
        }
    }

    fn parse(stream: &mut Stream) -> (r: Result<u32, Error>) {
        stream.read_u32()
    }
}

impl FromStream<LittleEndian> for u32 {
    type Out = u32;

    open spec fn parse_at(s: Seq<u8>, pos: int) -> Result<(u32, int), Error> {
        match read_u32_le_at(s, pos) {
            Ok(value) => Ok((value, pos + 4)),
            Err(e) => Err(e),
        }
    }

    fn parse(stream: &mut Stream) -> (r: Result<u32, Error>) {
        stream.read_u32_le()
    }
}

impl FromStream<BigEndian> for VarInt {
    type Out = u64;

    open spec fn parse_at(s: Seq<u8>, pos: int) -> Result<(u64, int), Error> {
        vlq_at(s, pos)
    }

    fn parse(stream: &mut Stream) -> (r: Result<u64, Error>) {
        stream.read_vlq()
    }
}

impl Stream {
    /// Reads a value in the byte order `E`.
    pub fn parse<E, T: FromStream<E>>(&mut self) -> (r: Result<T::Out, Error>)
        ensures
            final(self).bytes() == old(self).bytes(),
            match r {
                Ok(value) => T::parse_at(old(self).bytes(), old(self).offset() as int) == Ok::<
                    (T::Out, int),
                    Error,
                >((value, final(self).offset() as int)),
                Err(e) => {
                    &&& T::parse_at(old(self).bytes(), old(self).offset() as int) == Err::<
                        (T::Out, int),
                        Error,
                    >(e)
                    &&& final(self).offset() == old(self).offset()
                },
            },
    {
        T::parse(self)
    }

    /// Reads a big-endian value.
    pub fn read<T: FromStream<BigEndian>>(&mut self) -> (r: Result<T::Out, Error>)
        ensures
            final(self).bytes() == old(self).bytes(),
            match r {
                Ok(value) => T::parse_at(old(self).bytes(), old(self).offset() as int) == Ok::<
                    (T::Out, int),
                    Error,
                >((value, final(self).offset() as int)),
                Err(e) => {
                    &&& T::parse_at(old(self).bytes(), old(self).offset() as int) == Err::<
                        (T::Out, int),
                        Error,
                    >(e)
                    &&& final(self).offset() == old(self).offset()
                },
            },
    {
        T::parse(self)
    }

    /// Looks at the value at the cursor without taking it: the position is
    /// saved, the value is read, and the cursor is put back where it was,
    /// whether the read succeeded or not.
    pub fn peek<E, T: FromStream<E>>(&mut self) -> (r: Result<T::Out, Error>)
        ensures
            final(self).bytes() == old(self).bytes(),
            final(self).offset() == old(self).offset(),
            match r {
                Ok(value) => T::parse_at(old(self).bytes(), old(self).offset() as int) matches Ok(
                    (found, _),
                ) && found == value,
                Err(e) => T::parse_at(old(self).bytes(), old(self).offset() as int) == Err::<
                    (T::Out, int),
                    Error,
                >(e),
            },
    {
        let saved = self.position();
        let r = T::parse(self);
        self.pos = saved;
        r
    }
}

} // verus!

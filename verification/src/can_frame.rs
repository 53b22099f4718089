//! CAN bus frames: an 11 bit identifier, a remote transmission flag and up to eight data bytes.
//!
//! Identifiers from 0x400 upwards are generic (heartbeat and broadcast) datagrams; below that
//! they are specific datagrams of one device. Bits 4..=9 hold the virtual device address and
//! bits 0..=3 the generic or specific id.
use crate::le_bytes::{
    lemma_le16_roundtrip, lemma_le32_roundtrip, lemma_signed16_roundtrip, lemma_signed32_roundtrip,
    le_u16_at, le_u32_at, put_le16, put_le32, read_i16_at, read_i32_at, read_u16_at, read_u32_at,
    signed16, signed32, unsigned16, unsigned32, write_i16_at, write_i32_at, write_u16_at,
    write_u32_at,
};
use crate::slices::array_prefix;
use vstd::prelude::*;

verus! {

/// What a frame holds.
pub struct CanFrameView {
    pub id: u16,
    pub rtr: bool,
    pub len: u8,
    /// All eight data bytes, also those past `len`.
    pub data: Seq<u8>,
}

/// A frame as received or sent by the CAN driver.
#[derive(Copy, Clone, Debug)]
pub struct CanFrame {
    id: u16,
    rtr: bool,
    len: u8,
    data: [u8; 8],
}

/// A frame as the dispatcher hands it to the application.
#[derive(Copy, Clone, Debug)]
pub enum Frame {
    Legacy(CanFrame),
    Specific(SpecificFrame),
    Generic(GenericFrame),
}

/// A frame of one device, selected by the object id of its sender.
#[derive(Copy, Clone, Debug)]
pub struct SpecificFrame {
    pub can_frame: CanFrame,
    pub specific_id: u16,
    pub object_id: u16,
}

/// A generic frame, independent of its sender.
#[derive(Copy, Clone, Debug)]
pub struct GenericFrame {
    pub can_frame: CanFrame,
    pub generic_id: u16,
}

/// Eight zero bytes.
pub open spec fn zero_bytes() -> Seq<u8> {
    Seq::new(8, |i: int| 0u8)
}

/// Whether an identifier belongs to a heartbeat: generic range, generic id 0.
pub open spec fn spec_is_heartbeat(id: u16) -> bool {
    id >= 0x400 && id % 16 == 0
}

/// The generic id of an identifier in the generic range.
pub open spec fn spec_generic_id(id: u16) -> Option<u16> {
    if id >= 0x400 { Some((id % 16) as u16) } else { None }
}

/// The specific id of an identifier below the generic range.
pub open spec fn spec_specific_id(id: u16) -> Option<u16> {
    if id < 0x400 { Some((id % 16) as u16) } else { None }
}

/// The virtual device address held in bits 4..=9 of an identifier.
pub open spec fn spec_vda(id: u16) -> u16 {
    ((id / 16) % 64) as u16
}

proof fn lemma_low_nibble(id: u16)
    ensures
        id & 0x00f == id % 16,
        (id & 0x3f0) >> 4 == (id / 16) % 64,
{
    assert(id & 0x00f == id % 16) by (bit_vector);
    assert((id & 0x3f0) >> 4 == (id / 16) % 64) by (bit_vector);
}

impl View for CanFrame {
    type V = CanFrameView;

    closed spec fn view(&self) -> CanFrameView {
        CanFrameView { id: self.id, rtr: self.rtr, len: self.len, data: self.data@ }
    }
}

/// A frame always has its eight data bytes.
pub proof fn lemma_frame_data_len(f: CanFrame)
    ensures
        f@.data.len() == 8,
{
}

impl CanFrame {
    /// The data bytes that the frame carries: the first `len` of them.
    pub open spec fn payload(self) -> Seq<u8> {
        self@.data.take(self@.len as int)
    }

    /// Whether `len` bytes fit into the frame.
    pub open spec fn well_formed(self) -> bool {
        self@.len <= 8
    }

    /// A data frame with no data bytes.
    pub fn empty_from_id(id: u16) -> (r: Self)
        ensures
            r@ == (CanFrameView { id, rtr: false, len: 0, data: zero_bytes() }),
    {
        let r = CanFrame { id, rtr: false, len: 0, data: [0u8; 8] };
        assert(r@.data =~= zero_bytes());
        r
    }

    /// A remote transmission request for `len` data bytes.
    pub fn remote_trans_rq(id: u16, len: u8) -> (r: Self)
        ensures
            r@ == (CanFrameView { id, rtr: true, len, data: zero_bytes() }),
    {
        let r = CanFrame { id, rtr: true, len, data: [0u8; 8] };
        assert(r@.data =~= zero_bytes());
        r
    }

    /// A data frame that carries the bytes of `src`, at most eight of them.
    pub fn from_slice(id: u16, src: &[u8]) -> (r: Self)
        requires
            src@.len() <= 8,
        ensures
            r@.id == id,
            !r@.rtr,
            r@.len == src@.len(),
            r.payload() == src@,
            r@.data == src@ + zero_bytes().skip(src@.len() as int),
    {
        let mut data = [0u8; 8];
        let len = src.len();
        let mut i: usize = 0;
        while i < len
            invariant
                len == src@.len(),
                len <= 8,
                i <= len,
                data@.len() == 8,
                forall|k: int| 0 <= k < i ==> data@[k] == src@[k],
                forall|k: int| i <= k < 8 ==> data@[k] == 0,
            decreases len - i,
        {
            data[i] = src[i];
            i += 1;
        }
        let r = CanFrame { id, rtr: false, len: len as u8, data };
        assert(r.payload() =~= src@);
        assert(r@.data =~= src@ + zero_bytes().skip(src@.len() as int));
        r
    }

    /// A reader that takes the data bytes one value after the other.
    pub fn reader(&self) -> (r: Reader<'_>)
        requires
            self.well_formed(),
        ensures
            r@ == (ReaderView { data: self.payload(), pos: 0 }),
    {
        Reader::new(self.data())
    }

    pub fn id(&self) -> (r: u16)
        ensures
            r == self@.id,
    {
        self.id
    }

    pub fn set_id(&mut self, id: u16)
        ensures
            final(self)@ == (CanFrameView { id, ..old(self)@ }),
    {
        self.id = id;
    }

    /// Heartbeats are the generic frames with generic id 0.
    pub fn is_heartbeat(&self) -> (r: bool)
        ensures
            r == spec_is_heartbeat(self@.id),
    {
        proof { lemma_low_nibble(self.id) }
        (self.id >= 0x400) && ((self.id & 0x00f) == 0)
    }

    /// The generic id, for a frame in the generic range.
    pub fn generic_id(&self) -> (r: Option<u16>)
        ensures
            r == spec_generic_id(self@.id),
    {
        proof { lemma_low_nibble(self.id) }
        if self.id >= 0x400 {
            Some(self.id & 0x00f)
        } else {
            None
        }
    }

    /// The specific id, for a frame below the generic range.
    pub fn specific_id(&self) -> (r: Option<u16>)
        ensures
            r == spec_specific_id(self@.id),
    {
        proof { lemma_low_nibble(self.id) }
        if self.id < 0x400 {
            Some(self.id & 0x00f)
        } else {
            None
        }
    }

    pub fn is_rtr(&self) -> (r: bool)
        ensures
            r == self@.rtr,
    {
        self.rtr
    }

    /// The data bytes the frame carries.
    pub fn data(&self) -> (r: &[u8])
        requires
            self.well_formed(),
        ensures
            r@ == self.payload(),
    {
        array_prefix(&self.data, self.len as usize)
    }

    /// The data length code: how many data bytes the frame carries.
    pub fn dlc(&self) -> (r: u8)
        ensures
            r == self@.len,
    {
        self.len
    }

    /// The virtual device address of the sender.
    pub fn vda(&self) -> (r: u16)
        ensures
            r == spec_vda(self@.id),
            r < 64,
    {
        proof { lemma_low_nibble(self.id) }
        (self.id & 0x3f0) >> 4
    }

    pub fn read_u32(&self, idx: usize) -> (r: u32)
        requires
            idx + 4 <= 8,
        ensures
            r as int == le_u32_at(self@.data, idx as int),
    {
        read_u32_at(&self.data, idx)
    }

    pub fn read_u16(&self, idx: usize) -> (r: u16)
        requires
            idx + 2 <= 8,
        ensures
            r as int == le_u16_at(self@.data, idx as int),
    {
        read_u16_at(&self.data, idx)
    }

    pub fn read_u8(&self, idx: usize) -> (r: u8)
        requires
            idx < 8,
        ensures
            r == self@.data[idx as int],
    {
        self.data[idx]
    }

    pub fn read_i32(&self, idx: usize) -> (r: i32)
        requires
            idx + 4 <= 8,
        ensures
            r as int == signed32(le_u32_at(self@.data, idx as int)),
    {
        let u = read_u32_at(&self.data, idx);
        let r = u as i32;
        assert(u < 0x8000_0000 ==> r == u) by (bit_vector)
            requires r == u as i32;
        assert(u >= 0x8000_0000 ==> r == u - 0x1_0000_0000) by (bit_vector)
            requires r == u as i32;
        r
    }

    pub fn read_i16(&self, idx: usize) -> (r: i16)
        requires
            idx + 2 <= 8,
        ensures
            r as int == signed16(le_u16_at(self@.data, idx as int)),
    {
        let u = read_u16_at(&self.data, idx);
        let r = u as i16;
        assert(u < 0x8000 ==> r == u) by (bit_vector)
            requires r == u as i16;
        assert(u >= 0x8000 ==> r == u - 0x1_0000) by (bit_vector)
            requires r == u as i16;
        r
    }

    pub fn read_i8(&self, idx: usize) -> (r: i8)
        requires
            idx < 8,
        ensures
            r as int == signed8(self@.data[idx as int] as int),
    {
        let u = self.data[idx];
        to_i8(u)
    }

    /// Appends the four bytes of `val`, lowest first.
    pub fn push_u32(self, val: u32) -> (r: Self)
        requires
            self@.len + 4 <= 8,
        ensures
            r@ == (CanFrameView {
                len: (self@.len + 4) as u8,
                data: put_le32(self@.data, self@.len as int, val as int),
                ..self@
            }),
    {
        let mut s = self;
        let idx = s.len as usize;
        s.len += 4;
        write_u32_at(&mut s.data, idx, val);
        s
    }

    /// Appends the two bytes of `val`, lowest first.
    pub fn push_u16(self, val: u16) -> (r: Self)
        requires
            self@.len + 2 <= 8,
        ensures
            r@ == (CanFrameView {
                len: (self@.len + 2) as u8,
                data: put_le16(self@.data, self@.len as int, val as int),
                ..self@
            }),
    {
        let mut s = self;
        let idx = s.len as usize;
        s.len += 2;
        write_u16_at(&mut s.data, idx, val);
        s
    }

    /// Appends one byte.
    pub fn push_u8(self, val: u8) -> (r: Self)
        requires
            self@.len < 8,
        ensures
            r@ == (CanFrameView {
                len: (self@.len + 1) as u8,
                data: self@.data.update(self@.len as int, val),
                ..self@
            }),
    {
        let mut s = self;
        s.data[s.len as usize] = val;
        s.len += 1;
        s
    }

    /// Appends the four bytes of the two's complement pattern of `val`, lowest first.
    pub fn push_i32(self, val: i32) -> (r: Self)
        requires
            self@.len + 4 <= 8,
        ensures
            r@ == (CanFrameView {
                len: (self@.len + 4) as u8,
                data: put_le32(self@.data, self@.len as int, unsigned32(val as int)),
                ..self@
            }),
    {
        let mut s = self;
        let idx = s.len as usize;
        s.len += 4;
        write_i32_at(&mut s.data, idx, val);
        s
    }

    /// Appends the two bytes of the two's complement pattern of `val`, lowest first.
    pub fn push_i16(self, val: i16) -> (r: Self)
        requires
            self@.len + 2 <= 8,
        ensures
            r@ == (CanFrameView {
                len: (self@.len + 2) as u8,
                data: put_le16(self@.data, self@.len as int, unsigned16(val as int)),
                ..self@
            }),
    {
        let mut s = self;
        let idx = s.len as usize;
        s.len += 2;
        write_i16_at(&mut s.data, idx, val);
        s
    }

    /// Appends the byte pattern of `val`.
    pub fn push_i8(self, val: i8) -> (r: Self)
        requires
            self@.len < 8,
        ensures
            r@ == (CanFrameView {
                len: (self@.len + 1) as u8,
                data: self@.data.update(self@.len as int, unsigned8(val as int) as u8),
                ..self@
            }),
    {
        let mut s = self;
        let b = to_u8(val);
        s.data[s.len as usize] = b;
        s.len += 1;
        s
    }

    /// Appends the bytes of `src`.
    pub fn push_slice(self, src: &[u8]) -> (r: Self)
        requires
            self@.len + src@.len() <= 8,
        ensures
            r@.id == self@.id,
            r@.rtr == self@.rtr,
            r@.len == self@.len + src@.len(),
            r@.data.len() == 8,
            forall|k: int| 0 <= k < self@.len ==> r@.data[k] == self@.data[k],
            forall|k: int| 0 <= k < src@.len() ==> r@.data[self@.len + k] == src@[k],
            forall|k: int| self@.len + src@.len() <= k < 8 ==> r@.data[k] == self@.data[k],
    {
        let mut s = self;
        let idx = s.len as usize;
        let len = src.len();
        s.len += len as u8;
        let mut i: usize = 0;
        while i < len
            invariant
                len == src@.len(),
                idx + len <= 8,
                idx == self@.len,
                i <= len,
                s@.len == self@.len + len,
                s@.id == self@.id,
                s@.rtr == self@.rtr,
                s@.data.len() == 8,
                forall|k: int| 0 <= k < idx ==> s@.data[k] == self@.data[k],
                forall|k: int| 0 <= k < i ==> s@.data[idx + k] == src@[k],
                forall|k: int| idx + i <= k < 8 ==> s@.data[k] == self@.data[k],
            decreases len - i,
        {
            s.data[idx + i] = src[i];
            i += 1;
        }
        s
    }
}

/// Two's complement reading of an 8 bit pattern.
pub open spec fn signed8(u: int) -> int {
    if u < 128 { u } else { u - 256 }
}

/// The 8 bit pattern of a signed value.
pub open spec fn unsigned8(n: int) -> int {
    if n < 0 { n + 256 } else { n }
}

fn to_i8(u: u8) -> (r: i8)
    ensures
        r as int == signed8(u as int),
{
    let r = u as i8;
    assert(u < 0x80 ==> r == u) by (bit_vector)
        requires r == u as i8;
    assert(u >= 0x80 ==> r == u - 0x100) by (bit_vector)
        requires r == u as i8;
    r
}

fn to_u8(n: i8) -> (r: u8)
    ensures
        r as int == unsigned8(n as int),
{
    let r = n as u8;
    assert(n >= 0 ==> r == n) by (bit_vector)
        requires r == n as u8;
    assert(n < 0 ==> r == n + 0x100) by (bit_vector)
        requires r == n as u8;
    r
}

impl Frame {
    /// A frame of the device with object id `object_id`.
    pub fn specific(can_frame: CanFrame, specific_id: u16, object_id: u16) -> (r: Self)
        ensures
            r == Frame::Specific(SpecificFrame { can_frame, specific_id, object_id }),
    {
        let specific_frame = SpecificFrame { can_frame, specific_id, object_id };
        Frame::Specific(specific_frame)
    }

    /// A generic frame with generic id `generic_id`.
    pub fn generic(can_frame: CanFrame, generic_id: u16) -> (r: Self)
        ensures
            r == Frame::Generic(GenericFrame { can_frame, generic_id }),
    {
        let generic_frame = GenericFrame { can_frame, generic_id };
        Frame::Generic(generic_frame)
    }

    /// The frame as it travels on the bus.
    pub fn basic_frame(&self) -> (r: CanFrame)
        ensures
            r == spec_basic_frame(*self),
    {
        match self {
            Frame::Legacy(can_frame) => *can_frame,
            Frame::Specific(frame) => frame.can_frame,
            Frame::Generic(frame) => frame.can_frame,
        }
    }
}

/// The CAN frame that a dispatched frame wraps.
pub open spec fn spec_basic_frame(f: Frame) -> CanFrame {
    match f {
        Frame::Legacy(c) => c,
        Frame::Specific(s) => s.can_frame,
        Frame::Generic(g) => g.can_frame,
    }
}

/// What a reader holds: the bytes and the position of the next value.
pub struct ReaderView {
    pub data: Seq<u8>,
    pub pos: int,
}

/// Takes little endian values one after the other out of a byte slice.
pub struct Reader<'a> {
    data: &'a [u8],
    pos: usize,
}

impl<'a> View for Reader<'a> {
    type V = ReaderView;

    closed spec fn view(&self) -> ReaderView {
        ReaderView { data: self.data@, pos: self.pos as int }
    }
}

impl<'a> Reader<'a> {
    /// The position never passes the end of the bytes.
    #[verifier::type_invariant]
    closed spec fn within_data(self) -> bool {
        self.pos <= self.data@.len()
    }

    pub fn new(data: &'a [u8]) -> (r: Self)
        ensures
            r@ == (ReaderView { data: data@, pos: 0 }),
    {
        Reader { data, pos: 0 }
    }

    /// How many bytes are left to take.
    pub fn remaining(&self) -> (r: usize)
        ensures
            r == self@.data.len() - self@.pos,
    {
        proof {
            use_type_invariant(self);
        }
        self.data.len() - self.pos
    }

    pub fn pop_u32(&mut self) -> (r: u32)
        requires
            old(self)@.pos + 4 <= old(self)@.data.len(),
        ensures
            r as int == le_u32_at(old(self)@.data, old(self)@.pos),
            final(self)@ == (ReaderView { pos: old(self)@.pos + 4, ..old(self)@ }),
    {
        proof { assert(self.data@.len() == self.data.len()) }
        let idx = self.pos;
        self.pos += 4;
        read_u32_at(self.data, idx)
    }

    pub fn pop_u16(&mut self) -> (r: u16)
        requires
            old(self)@.pos + 2 <= old(self)@.data.len(),
        ensures
            r as int == le_u16_at(old(self)@.data, old(self)@.pos),
            final(self)@ == (ReaderView { pos: old(self)@.pos + 2, ..old(self)@ }),
    {
        proof { assert(self.data@.len() == self.data.len()) }
        let idx = self.pos;
        self.pos += 2;
        read_u16_at(self.data, idx)
    }

    pub fn pop_u8(&mut self) -> (r: u8)
        requires
            old(self)@.pos < old(self)@.data.len(),
        ensures
            r == old(self)@.data[old(self)@.pos],
            final(self)@ == (ReaderView { pos: old(self)@.pos + 1, ..old(self)@ }),
    {
        proof { assert(self.data@.len() == self.data.len()) }
        let idx = self.pos;
        self.pos += 1;
        self.data[idx]
    }

    pub fn pop_i32(&mut self) -> (r: i32)
        requires
            old(self)@.pos + 4 <= old(self)@.data.len(),
        ensures
            r as int == signed32(le_u32_at(old(self)@.data, old(self)@.pos)),
            final(self)@ == (ReaderView { pos: old(self)@.pos + 4, ..old(self)@ }),
    {
        proof { assert(self.data@.len() == self.data.len()) }
        let idx = self.pos;
        self.pos += 4;
        read_i32_at(self.data, idx)
    }

    pub fn pop_i16(&mut self) -> (r: i16)
        requires
            old(self)@.pos + 2 <= old(self)@.data.len(),
        ensures
            r as int == signed16(le_u16_at(old(self)@.data, old(self)@.pos)),
            final(self)@ == (ReaderView { pos: old(self)@.pos + 2, ..old(self)@ }),
    {
        proof { assert(self.data@.len() == self.data.len()) }
        let idx = self.pos;
        self.pos += 2;
        read_i16_at(self.data, idx)
    }

    pub fn pop_i8(&mut self) -> (r: i8)
        requires
            old(self)@.pos < old(self)@.data.len(),
        ensures
            r as int == signed8(old(self)@.data[old(self)@.pos] as int),
            final(self)@ == (ReaderView { pos: old(self)@.pos + 1, ..old(self)@ }),
    {
        proof { assert(self.data@.len() == self.data.len()) }
        let idx = self.pos;
        self.pos += 1;
        to_i8(self.data[idx])
    }
}

/// Every identifier is generic or specific, never both; a heartbeat is exactly a generic
/// identifier with generic id 0; and an 11 bit identifier is made of its range, its device
/// address and its low four bits.
pub proof fn lemma_id_kinds(id: u16)
    ensures
        spec_generic_id(id) is Some <==> spec_specific_id(id) is None,
        spec_is_heartbeat(id) <==> spec_generic_id(id) == Some(0u16),
        id < 0x800 ==> id == (if id >= 0x400 { 0x400int } else { 0int }) + 16 * spec_vda(id) + id % 16,
{
}

/// A 16 bit value pushed into a frame reads back at the position it was pushed to, also from
/// the payload, and the payload before it stays.
pub proof fn lemma_push_read_u16(f: CanFrameView, val: u16)
    requires
        f.data.len() == 8,
        f.len + 2 <= 8,
    ensures
        ({
            let data = put_le16(f.data, f.len as int, val as int);
            &&& le_u16_at(data, f.len as int) == val
            &&& le_u16_at(data.take(f.len + 2), f.len as int) == val
            &&& data.take(f.len as int) == f.data.take(f.len as int)
        }),
{
    let data = put_le16(f.data, f.len as int, val as int);
    lemma_le16_roundtrip(f.data, f.len as int, val as int);
    assert(data.take(f.len as int) =~= f.data.take(f.len as int));
}

/// A 32 bit value pushed into a frame reads back at the position it was pushed to, also from
/// the payload, and the payload before it stays.
pub proof fn lemma_push_read_u32(f: CanFrameView, val: u32)
    requires
        f.data.len() == 8,
        f.len + 4 <= 8,
    ensures
        ({
            let data = put_le32(f.data, f.len as int, val as int);
            &&& le_u32_at(data, f.len as int) == val
            &&& le_u32_at(data.take(f.len + 4), f.len as int) == val
            &&& data.take(f.len as int) == f.data.take(f.len as int)
        }),
{
    let data = put_le32(f.data, f.len as int, val as int);
    lemma_le32_roundtrip(f.data, f.len as int, val as int);
    assert(data.take(f.len as int) =~= f.data.take(f.len as int));
}

/// Signed values pushed into a frame read back as the same signed values.
pub proof fn lemma_push_read_signed(f: CanFrameView, a: i8, b: i16, c: i32)
    requires
        f.data.len() == 8,
    ensures
        f.len < 8 ==> signed8(f.data.update(f.len as int, unsigned8(a as int) as u8)[f.len as int] as int) == a,
        f.len + 2 <= 8 ==> signed16(le_u16_at(put_le16(f.data, f.len as int, unsigned16(b as int)), f.len as int)) == b,
        f.len + 4 <= 8 ==> signed32(le_u32_at(put_le32(f.data, f.len as int, unsigned32(c as int)), f.len as int)) == c,
{
    lemma_signed16_roundtrip(b as int);
    lemma_signed32_roundtrip(c as int);
    if f.len + 2 <= 8 {
        lemma_le16_roundtrip(f.data, f.len as int, unsigned16(b as int));
    }
    if f.len + 4 <= 8 {
        lemma_le32_roundtrip(f.data, f.len as int, unsigned32(c as int));
    }
}

} // verus!

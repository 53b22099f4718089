//! Buffers for NMEA 0183 sentences: one that collects received bytes into a sentence and parses
//! it field by field, one that assembles a sentence to send and appends its checksum.
//!
//! A sentence starts with `$`, has comma separated fields, ends its data with `*`, then two hex
//! digits of the checksum (the exclusive or of all bytes between `$` and `*`) and `\r\n`.
use crate::error::CoreError;
use crate::persist::{lemma_persistence_id_code_roundtrip, persistence_id_from_code, PersistenceId};
use heapless::Deque;
use crate::slices::{array_prefix, array_range, same_bytes};
use vstd::prelude::*;
use vstd::string::StringSliceAdditionalSpecFns;

verus! {

/// Size of both buffers; an NMEA sentence has at most 82 characters.
pub const NMEA_LEN: usize = 82;

/// `$`, the first byte of a sentence.
pub const START: u8 = 36;
/// `,`, the separator of two fields.
pub const COMMA: u8 = 44;
/// `*`, the end of the data before the checksum.
pub const STAR: u8 = 42;
/// `\r`, the end of a received sentence.
pub const CR: u8 = 13;
/// `\n`, the last byte of a sent sentence.
pub const LF: u8 = 10;

/// What the receive buffer holds.
pub struct RxView {
    pub buf: Seq<u8>,
    pub idx: int,
    pub chunk_idx: int,
    pub receiving: bool,
}

/// Collects the bytes of one received sentence and hands out its fields.
pub struct RxBuffer {
    buf: [u8; 82],
    idx: usize,
    chunk_idx: usize,
    receiving: bool,
}

/// The receive buffer of the NMEA interface.
pub type NmeaRxBuffer = RxBuffer;

/// The transmit buffer of the NMEA interface.
pub type NmeaTxBuffer = TxBuffer;

/// The receive buffer after one more byte, and whether that byte completed a sentence.
///
/// While waiting, only `$` starts a sentence (at position 0). While receiving, bytes are
/// appended; a full buffer drops the sentence, and `\r` completes it.
pub open spec fn rx_step(v: RxView, b: u8) -> (RxView, bool) {
    if !v.receiving {
        if b == 36 {
            (RxView { receiving: true, buf: v.buf.update(0, b), idx: 1, ..v }, false)
        } else {
            (v, false)
        }
    } else if v.idx >= 82 {
        (RxView { receiving: false, ..v }, false)
    } else if b == 13 {
        (RxView { buf: v.buf.update(v.idx, b), idx: v.idx + 1, receiving: false, ..v }, true)
    } else {
        (RxView { buf: v.buf.update(v.idx, b), idx: v.idx + 1, ..v }, false)
    }
}

/// Whether a byte ends a field: `,` or `*`.
pub open spec fn is_separator(b: u8) -> bool {
    b == 44 || b == 42
}

/// The first position in `from..to` that holds a field separator.
pub open spec fn first_separator(buf: Seq<u8>, from: int, to: int) -> Option<int>
    decreases to - from,
{
    if from >= to {
        None
    } else if is_separator(buf[from]) {
        Some(from)
    } else {
        first_separator(buf, from + 1, to)
    }
}

/// The first position in `from..to` that holds `*`.
pub open spec fn first_star(buf: Seq<u8>, from: int, to: int) -> Option<int>
    decreases to - from,
{
    if from >= to {
        None
    } else if buf[from] == 42 {
        Some(from)
    } else {
        first_star(buf, from + 1, to)
    }
}

/// The exclusive or of the bytes in `from..to`.
pub open spec fn xor_range(buf: Seq<u8>, from: int, to: int) -> u8
    decreases to - from,
{
    if to <= from {
        0
    } else {
        xor_range(buf, from, to - 1) ^ buf[to - 1]
    }
}

/// The upper case hex digit of a value below 16.
pub open spec fn hex_digit(n: u8) -> u8 {
    if n < 10 { (48 + n) as u8 } else { (55 + n) as u8 }
}

/// The end of the region that the checksum test reads: the received bytes, at most 80.
pub open spec fn check_end(v: RxView) -> int {
    if v.idx < 80 { v.idx } else { 80 }
}

/// Whether the received sentence passes the checksum test.
///
/// Its data must end with `*` before position 80. The test fails when neither of the two
/// digits after the `*` is the matching digit of the checksum: the high digit at the first
/// place, the low digit at the second.
pub open spec fn rx_check_ok(v: RxView) -> bool {
    match first_star(v.buf, 1, check_end(v)) {
        None => false,
        Some(k) => {
            let cs = xor_range(v.buf, 1, k);
            !(hex_digit(cs % 16) != v.buf[k + 2] && hex_digit(cs / 16) != v.buf[k + 1])
        },
    }
}

proof fn lemma_first_separator_bounds(buf: Seq<u8>, from: int, to: int)
    ensures
        first_separator(buf, from, to) matches Some(p) ==> from <= p < to && is_separator(buf[p]),
    decreases to - from,
{
    if from < to && !is_separator(buf[from]) {
        lemma_first_separator_bounds(buf, from + 1, to);
    }
}

proof fn lemma_first_star_bounds(buf: Seq<u8>, from: int, to: int)
    ensures
        first_star(buf, from, to) matches Some(p) ==> from <= p < to && buf[p] == 42,
    decreases to - from,
{
    if from < to && buf[from] != 42 {
        lemma_first_star_bounds(buf, from + 1, to);
    }
}

fn hex_digit_of(n: u8) -> (r: u8)
    requires
        n < 16,
    ensures
        r == hex_digit(n),
{
    if n < 10 {
        48 + n
    } else {
        55 + n
    }
}

impl View for RxBuffer {
    type V = RxView;

    closed spec fn view(&self) -> RxView {
        RxView {
            buf: self.buf@,
            idx: self.idx as int,
            chunk_idx: self.chunk_idx as int,
            receiving: self.receiving,
        }
    }
}

impl RxBuffer {
    #[verifier::type_invariant]
    closed spec fn inv(self) -> bool {
        &&& self.idx <= 82
        &&& self.chunk_idx <= 82
    }

    /// Positions stay inside the buffer.
    pub open spec fn well_formed(v: RxView) -> bool {
        &&& v.buf.len() == 82
        &&& 0 <= v.idx <= 82
        &&& 0 <= v.chunk_idx <= 82
    }

    /// An empty buffer waiting for `$`.
    pub fn new() -> (r: Self)
        ensures
            r@ == (RxView { buf: Seq::new(82, |i: int| 0u8), idx: 0, chunk_idx: 0, receiving: false }),
            Self::well_formed(r@),
    {
        let r = RxBuffer { buf: [0;82], idx: 0, chunk_idx: 0, receiving: false };
        assert(r@.buf =~= Seq::new(82, |i: int| 0u8));
        r
    }

    /// Takes one received byte; true when it completed a sentence.
    pub fn recv_u8(&mut self, b: u8) -> (r: bool)
        ensures
            (final(self)@, r) == rx_step(old(self)@, b),
            Self::well_formed(final(self)@),
    {
        proof { use_type_invariant(&*self); }
        if !self.receiving {
            if b == START {
                // start of a sentence
                self.receiving = true;
                self.buf[0] = b;
                self.idx = 1;
            }
        } else {
            if self.idx >= 82 {
                // no valid sentence, the data is dropped
                self.receiving = false;
            } else {
                self.buf[self.idx] = b;
                self.idx += 1;
                if b == CR {
                    // end of the sentence reached, ready for the next one
                    self.receiving = false;
                    return true;
                }
            }
        }
        false
    }

    /// Takes the next field and tells whether it equals `s`.
    pub fn compare_chunk(&mut self, s: &[u8]) -> (r: Result<(), CoreError>)
        ensures
            ({
                let v = old(self)@;
                match first_separator(v.buf, v.chunk_idx, v.idx) {
                    Some(p) => {
                        &&& final(self)@ == (RxView { chunk_idx: p + 1, ..v })
                        &&& r == if v.buf.subrange(v.chunk_idx, p) == s@ {
                            Ok::<(), CoreError>(())
                        } else {
                            Err(CoreError::ParseError)
                        }
                    },
                    None => final(self)@ == v && r == Err::<(), CoreError>(CoreError::ParseError),
                }
            }),
            Self::well_formed(final(self)@),
    {
        let slice = match self.next_chunk() {
            Ok(slice) => slice,
            Err(e) => return Err(e),
        };
        if same_bytes(slice, s) {
            Ok(())
        } else {
            Err(CoreError::ParseError)
        }
    }

    /// The next field: the bytes from the current position up to the next `,` or `*`, which
    /// the position then passes.
    pub fn next_chunk(&mut self) -> (r: Result<&[u8], CoreError>)
        ensures
            ({
                let v = old(self)@;
                match first_separator(v.buf, v.chunk_idx, v.idx) {
                    Some(p) => {
                        &&& final(self)@ == (RxView { chunk_idx: p + 1, ..v })
                        &&& r matches Ok(chunk) && chunk@ == v.buf.subrange(v.chunk_idx, p)
                    },
                    None => final(self)@ == v && r == Err::<&[u8], CoreError>(CoreError::ParseError),
                }
            }),
            Self::well_formed(final(self)@),
    {
        proof { use_type_invariant(&*self); }
        let mut idx = self.chunk_idx;
        while idx < self.idx
            invariant
                self@ == old(self)@,
                self.buf@.len() == 82,
                self.idx <= 82,
                self.chunk_idx <= 82,
                self.chunk_idx <= idx,
                first_separator(self.buf@, self.chunk_idx as int, self.idx as int) == first_separator(
                    self.buf@,
                    idx as int,
                    self.idx as int,
                ),
            decreases self.idx - idx,
        {
            let b = self.buf[idx];
            if b == COMMA || b == STAR {
                let r_idx = self.chunk_idx;
                self.chunk_idx = idx + 1;
                return Ok(array_range(&self.buf, r_idx, idx));
            }
            idx += 1;
        }
        Err(CoreError::ParseError)
    }

    /// Tests the checksum of the received sentence; on success the fields are read from the
    /// start again.
    pub fn check(&mut self) -> (r: Result<(), CoreError>)
        ensures
            rx_check_ok(old(self)@) ==> r is Ok && final(self)@ == (RxView { chunk_idx: 0, ..old(self)@ }),
            !rx_check_ok(old(self)@) ==> r == Err::<(), CoreError>(CoreError::ParseError) && final(self)@ == old(self)@,
            Self::well_formed(final(self)@),
    {
        proof { use_type_invariant(&*self); }
        let ghost v = self@;
        let lim: usize = if self.idx < 80 { self.idx } else { 80 };
        let mut cs: u8 = 0;
        let mut found = false;
        let mut idx: usize = 1;
        while idx < lim && !found
            invariant
                lim == check_end(v),
                lim <= 80,
                v == self@,
                1 <= idx,
                idx <= lim || (idx == 1 && lim == 0),
                !found ==> cs == xor_range(v.buf, 1, idx as int),
                !found ==> first_star(v.buf, 1, lim as int) == first_star(v.buf, idx as int, lim as int),
                found ==> first_star(v.buf, 1, lim as int) == Some(idx - 1),
                found ==> cs == xor_range(v.buf, 1, idx - 1),
            decreases lim - idx,
        {
            let b = self.buf[idx];
            idx += 1;
            if b == STAR {
                found = true;
            } else {
                cs ^= b;
            }
        }
        if !found {
            // the sentence is not complete
            assert(first_star(v.buf, idx as int, lim as int) is None);
            return Err(CoreError::ParseError);
        }
        proof {
            lemma_first_star_bounds(v.buf, 1, lim as int);
            assert(cs % 16 < 16 && cs / 16 < 16) by (bit_vector);
            assert(cs & 0x0f == cs % 16 && cs >> 4 == cs / 16) by (bit_vector);
        }
        if hex_digit_of(cs & 0x0f) != self.buf[idx + 1] && hex_digit_of(cs >> 4) != self.buf[idx] {
            // the checksum is not correct
            return Err(CoreError::ParseError);
        }
        self.chunk_idx = 0;
        Ok(())
    }
}

/// What the transmit buffer holds.
pub struct TxView {
    pub buf: Seq<u8>,
    pub idx: int,
}

/// Assembles one sentence to send.
pub struct TxBuffer {
    buf: [u8; 82],
    idx: usize,
}

/// The transmit buffer after `bytes` were written: they are appended if they fit, and dropped
/// as a whole if they do not.
pub open spec fn tx_write(v: TxView, bytes: Seq<u8>) -> TxView {
    if v.idx + bytes.len() <= 82 {
        TxView {
            buf: v.buf.take(v.idx) + bytes + v.buf.skip(v.idx + bytes.len()),
            idx: v.idx + bytes.len(),
        }
    } else {
        v
    }
}

/// The bytes that close a sentence with checksum `cs`: `*`, two hex digits, `\r\n`.
pub open spec fn checksum_tail(cs: u8) -> Seq<u8> {
    seq![42u8, hex_digit(cs / 16), hex_digit(cs % 16), 13u8, 10u8]
}

/// The transmit buffer after `finish`: the `*`, the two checksum digits and `\r\n` are each
/// written as by `write_bytes`.
pub open spec fn tx_finish(v: TxView) -> TxView {
    let cs = xor_range(v.buf, 1, v.idx);
    let t = checksum_tail(cs);
    tx_write(tx_write(tx_write(v, t.take(1)), t.subrange(1, 3)), t.skip(3))
}

impl View for TxBuffer {
    type V = TxView;

    closed spec fn view(&self) -> TxView {
        TxView { buf: self.buf@, idx: self.idx as int }
    }
}

impl TxBuffer {
    #[verifier::type_invariant]
    closed spec fn inv(self) -> bool {
        self.idx <= 82
    }

    /// The bytes of the sentence so far.
    pub open spec fn content(v: TxView) -> Seq<u8> {
        v.buf.take(v.idx)
    }

    pub fn new() -> (r: Self)
        ensures
            r@ == (TxView { buf: Seq::new(82, |i: int| 0u8), idx: 0 }),
    {
        let r = TxBuffer { buf: [0;82], idx: 0 };
        assert(r@.buf =~= Seq::new(82, |i: int| 0u8));
        r
    }

    /// Starts a new sentence.
    pub fn reset(&mut self)
        ensures
            final(self)@ == (TxView { idx: 0, ..old(self)@ }),
    {
        self.idx = 0;
    }

    /// Appends `bytes` if they fit; silently drops them otherwise.
    pub fn write_bytes(&mut self, bytes: &[u8])
        ensures
            final(self)@ == tx_write(old(self)@, bytes@),
            final(self)@.buf.len() == 82,
            final(self)@.idx <= 82,
    {
        proof { use_type_invariant(&*self); }
        let len = bytes.len();
        let start = self.idx;
        if len <= 82 - start {
            let mut i: usize = 0;
            while i < len
                invariant
                    len == bytes@.len(),
                    start + len <= 82,
                    self.idx == start,
                    i <= len,
                    self.buf@.len() == 82,
                    forall|k: int| 0 <= k < start ==> self.buf@[k] == old(self)@.buf[k],
                    forall|k: int| 0 <= k < i ==> self.buf@[start + k] == bytes@[k],
                    forall|k: int| start + len <= k < 82 ==> self.buf@[k] == old(self)@.buf[k],
                decreases len - i,
            {
                self.buf[start + i] = bytes[i];
                i += 1;
            }
            self.idx = start + len;
            assert(self.buf@ =~= old(self)@.buf.take(start as int) + bytes@ + old(self)@.buf.skip(
                start + len,
            ));
        }
    }

    /// Appends the bytes of a text, as `write_bytes` does.
    pub fn write_str(&mut self, s: &str)
        ensures
            final(self)@ == tx_write(old(self)@, s.spec_bytes()),
            final(self)@.buf.len() == 82,
            final(self)@.idx <= 82,
    {
        self.write_bytes(s.as_bytes())
    }

    /// Closes the sentence with `*`, the checksum and `\r\n`, and returns it.
    pub fn finish(&mut self) -> (r: &[u8])
        requires
            old(self)@.idx >= 1,
        ensures
            final(self)@ == tx_finish(old(self)@),
            r@ == Self::content(final(self)@),
    {
        proof { use_type_invariant(&*self); }
        let mut cs: u8 = 0;
        let mut i: usize = 1;
        while i < self.idx
            invariant
                1 <= i <= self.idx <= 82,
                cs == xor_range(self.buf@, 1, i as int),
            decreases self.idx - i,
        {
            cs ^= self.buf[i];
            i += 1;
        }
        proof {
            assert(cs % 16 < 16 && cs / 16 < 16) by (bit_vector);
            assert(cs & 0x0f == cs % 16 && cs >> 4 == cs / 16) by (bit_vector);
        }
        let ghost t = checksum_tail(cs);
        let star = [STAR];
        let digits = [hex_digit_of(cs >> 4), hex_digit_of(cs & 0x0f)];
        let end = [CR, LF];
        assert(star@ =~= t.take(1));
        assert(digits@ =~= t.subrange(1, 3));
        assert(end@ =~= t.skip(3));
        self.write_bytes(&star);
        self.write_bytes(&digits);
        self.write_bytes(&end);
        proof { use_type_invariant(&*self); }
        array_prefix(&self.buf, self.idx)
    }
}


/// The receive buffer after `bytes`, taken one after the other.
pub open spec fn rx_feed(v: RxView, bytes: Seq<u8>) -> RxView
    decreases bytes.len(),
{
    if bytes.len() == 0 {
        v
    } else {
        rx_step(rx_feed(v, bytes.drop_last()), bytes.last()).0
    }
}

/// Whether the last of `bytes` completed a sentence.
pub open spec fn rx_completes(v: RxView, bytes: Seq<u8>) -> bool {
    bytes.len() > 0 && rx_step(rx_feed(v, bytes.drop_last()), bytes.last()).1
}

/// A sentence as the receiver takes it: it starts with `$`, ends with `\r` and has no other
/// `\r`, and fits into the buffer.
pub open spec fn is_received_sentence(s: Seq<u8>) -> bool {
    &&& 2 <= s.len() <= 82
    &&& s[0] == START
    &&& s.last() == CR
    &&& forall|k: int| 0 <= k < s.len() - 1 ==> s[k] != CR
}

proof fn lemma_rx_prefix(v: RxView, s: Seq<u8>, k: int)
    requires
        !v.receiving,
        v.buf.len() == 82,
        s[0] == START,
        1 <= k <= 82,
        k <= s.len(),
        forall|j: int| 1 <= j < k ==> s[j] != CR,
    ensures
        rx_feed(v, s.take(k)).receiving,
        rx_feed(v, s.take(k)).idx == k,
        rx_feed(v, s.take(k)).buf.len() == 82,
        rx_feed(v, s.take(k)).buf.take(k) == s.take(k),
        k >= 2 ==> !rx_completes(v, s.take(k)),
    decreases k,
{
    let p = s.take(k);
    assert(p.drop_last() == s.take(k - 1));
    if k == 1 {
        assert(s.take(0) =~= Seq::<u8>::empty());
        assert(rx_feed(v, s.take(0)) == v);
        assert(rx_feed(v, p).buf.take(1) =~= s.take(1));
    } else {
        lemma_rx_prefix(v, s, k - 1);
        let w = rx_feed(v, s.take(k - 1));
        assert(p.last() == s[k - 1]);
        assert(s[k - 1] != CR);
        assert(rx_feed(v, p).buf.take(k) =~= s.take(k)) by {
            assert(w.buf.take(k - 1) =~= s.take(k - 1));
        }
    }
}

/// A sentence taken byte by byte by a waiting receiver is complete exactly at its last byte,
/// and then the buffer holds it.
pub proof fn lemma_receive_sentence(v: RxView, s: Seq<u8>)
    requires
        !v.receiving,
        v.buf.len() == 82,
        is_received_sentence(s),
    ensures
        rx_completes(v, s),
        forall|k: int| 1 <= k < s.len() ==> !rx_completes(v, #[trigger] s.take(k)),
        rx_feed(v, s).idx == s.len(),
        !rx_feed(v, s).receiving,
        rx_feed(v, s).buf.take(s.len() as int) == s,
        rx_feed(v, s).buf.len() == 82,
{
    let n = s.len() as int;
    lemma_rx_prefix(v, s, n - 1);
    assert(s.drop_last() == s.take(n - 1));
    let w = rx_feed(v, s.take(n - 1));
    assert(rx_feed(v, s) == rx_step(w, s.last()).0);
    assert(rx_feed(v, s).buf == w.buf.update(n - 1, CR));
    assert(rx_feed(v, s).buf.take(n) =~= s) by {
        assert(w.buf.take(n - 1) =~= s.take(n - 1));
        assert forall|k: int| 0 <= k < n - 1 implies w.buf[k] == s[k] by {
            assert(w.buf.take(n - 1)[k] == s.take(n - 1)[k]);
        }
    }
    assert forall|k: int| 1 <= k < s.len() implies !rx_completes(v, #[trigger] s.take(k)) by {
        if k >= 2 {
            lemma_rx_prefix(v, s, k);
        } else {
            assert(s.take(1).drop_last() =~= Seq::<u8>::empty());
            assert(rx_feed(v, Seq::<u8>::empty()) == v);
        }
    }
}

/// Feeding `a` and then `b` is feeding `a + b`.
proof fn lemma_rx_feed_concat(v: RxView, a: Seq<u8>, b: Seq<u8>)
    ensures
        rx_feed(v, a + b) == rx_feed(rx_feed(v, a), b),
    decreases b.len(),
{
    if b.len() == 0 {
        assert(a + b =~= a);
    } else {
        assert((a + b).drop_last() =~= a + b.drop_last());
        assert((a + b).last() == b.last());
        lemma_rx_feed_concat(v, a, b.drop_last());
    }
}

/// A waiting receiver ignores every byte but `$`: it stays as it is and completes nothing.
pub proof fn lemma_ignore_until_start(v: RxView, g: Seq<u8>)
    requires
        !v.receiving,
        forall|k: int| 0 <= k < g.len() ==> g[k] != START,
    ensures
        rx_feed(v, g) == v,
        forall|k: int| 1 <= k <= g.len() ==> !rx_completes(v, #[trigger] g.take(k)),
{
    assert forall|k: int| 1 <= k <= g.len() implies !rx_completes(v, #[trigger] g.take(k)) by {
        lemma_ignore_prefix(v, g, k - 1);
        assert(g.take(k).drop_last() =~= g.take(k - 1));
        assert(g.take(k).last() == g[k - 1]);
    }
    lemma_ignore_prefix(v, g, g.len() as int);
    assert(g.take(g.len() as int) =~= g);
}

/// What a waiting receiver keeps after bytes that are not `$`: itself.
proof fn lemma_ignore_prefix(v: RxView, g: Seq<u8>, k: int)
    requires
        !v.receiving,
        0 <= k <= g.len(),
        forall|j: int| 0 <= j < g.len() ==> g[j] != START,
    ensures
        rx_feed(v, g.take(k)) == v,
    decreases k,
{
    if k == 0 {
        assert(g.take(0) =~= Seq::<u8>::empty());
    } else {
        lemma_ignore_prefix(v, g, k - 1);
        assert(g.take(k).drop_last() =~= g.take(k - 1));
        assert(g.take(k).last() == g[k - 1]);
    }
}

/// Bytes before the `$` of a sentence are ignored: fed byte by byte to a waiting receiver,
/// `g + s` completes exactly at its last byte, and then the buffer holds the sentence `s`.
pub proof fn lemma_receive_after_noise(v: RxView, g: Seq<u8>, s: Seq<u8>)
    requires
        !v.receiving,
        v.buf.len() == 82,
        forall|k: int| 0 <= k < g.len() ==> g[k] != START,
        is_received_sentence(s),
    ensures
        rx_completes(v, g + s),
        forall|k: int| 1 <= k < g.len() + s.len() ==> !rx_completes(v, #[trigger] (g + s).take(k)),
        rx_feed(v, g + s).buf.take(s.len() as int) == s,
        !rx_feed(v, g + s).receiving,
{
    lemma_ignore_until_start(v, g);
    lemma_receive_sentence(v, s);
    lemma_rx_feed_concat(v, g, s);
    let n = g.len() + s.len();
    assert((g + s).drop_last() =~= g + s.drop_last());
    lemma_rx_feed_concat(v, g, s.drop_last());
    assert(s.drop_last() =~= s.take(s.len() - 1));
    assert forall|k: int| 1 <= k < n implies !rx_completes(v, #[trigger] (g + s).take(k)) by {
        if k <= g.len() {
            assert((g + s).take(k) =~= g.take(k));
        } else {
            let t = s.take(k - g.len());
            assert((g + s).take(k) =~= g + t);
            assert((g + t).drop_last() =~= g + t.drop_last());
            lemma_rx_feed_concat(v, g, t.drop_last());
            assert((g + t).last() == t.last());
            assert(!rx_completes(v, t));
        }
    }
}

/// A sentence too long for the buffer is dropped: after `$` and 81 bytes none of which is
/// `\r`, the buffer is full, and the next byte, whatever it is, ends the sentence without
/// completing it; no byte on the way completes one, and the receiver waits again.
pub proof fn lemma_overlong_sentence_dropped(v: RxView, s: Seq<u8>)
    requires
        !v.receiving,
        v.buf.len() == 82,
        s.len() == 83,
        s[0] == START,
        forall|k: int| 1 <= k < 82 ==> s[k] != CR,
    ensures
        forall|k: int| 1 <= k <= 83 ==> !rx_completes(v, #[trigger] s.take(k)),
        !rx_feed(v, s).receiving,
{
    lemma_rx_prefix(v, s, 82);
    assert(s.drop_last() =~= s.take(82));
    assert forall|k: int| 1 <= k <= 83 implies !rx_completes(v, #[trigger] s.take(k)) by {
        if k == 1 {
            assert(s.take(1).drop_last() =~= Seq::<u8>::empty());
        } else if k <= 82 {
            lemma_rx_prefix(v, s, k);
        } else {
            assert(s.take(83) =~= s);
        }
    }
}

/// The exclusive or of a range depends only on the bytes in that range.
proof fn lemma_xor_range_same(a: Seq<u8>, b: Seq<u8>, from: int, to: int)
    requires
        0 <= from,
        to <= a.len(),
        to <= b.len(),
        forall|k: int| from <= k < to ==> a[k] == b[k],
    ensures
        xor_range(a, from, to) == xor_range(b, from, to),
    decreases to - from,
{
    if to > from {
        lemma_xor_range_same(a, b, from, to - 1);
    }
}

/// The first `*` in a range is at `p` when there is none before it.
proof fn lemma_first_star_at(buf: Seq<u8>, from: int, to: int, p: int)
    requires
        from <= p < to,
        buf[p] == STAR,
        forall|k: int| from <= k < p ==> buf[k] != STAR,
    ensures
        first_star(buf, from, to) == Some(p),
    decreases p - from,
{
    if from < p {
        lemma_first_star_at(buf, from + 1, to, p);
    }
}

/// A received sentence whose data `body` has no `*` after its start, followed by `*`, the
/// two digits of the checksum of `body` and `\r`, passes the checksum test.
pub proof fn lemma_check_accepts(v: RxView, body: Seq<u8>)
    requires
        1 <= body.len() <= 77,
        forall|k: int| 1 <= k < body.len() ==> body[k] != STAR,
        v.idx == body.len() + 4,
        v.buf.len() == 82,
        v.buf.take(v.idx) == body + checksum_tail(xor_range(body, 1, body.len() as int)).take(4),
    ensures
        rx_check_ok(v),
{
    let n = body.len() as int;
    let cs = xor_range(body, 1, n);
    let t = checksum_tail(cs);
    assert(forall|k: int| 0 <= k < n ==> v.buf[k] == v.buf.take(v.idx)[k]);
    assert(forall|k: int| 0 <= k < n ==> v.buf[k] == body[k]);
    assert(v.buf[n] == v.buf.take(v.idx)[n]);
    assert(v.buf[n + 1] == v.buf.take(v.idx)[n + 1]);
    assert(v.buf[n + 2] == v.buf.take(v.idx)[n + 2]);
    assert(v.buf[n] == STAR);
    lemma_first_star_at(v.buf, 1, check_end(v), n);
    lemma_xor_range_same(v.buf, body, 1, n);
    assert(v.buf[n + 1] == hex_digit(cs / 16));
    assert(v.buf[n + 2] == hex_digit(cs % 16));
}

/// Writing bytes that fit appends them to the sentence.
proof fn lemma_tx_write_appends(v: TxView, bytes: Seq<u8>)
    requires
        v.buf.len() == 82,
        0 <= v.idx,
        v.idx + bytes.len() <= 82,
    ensures
        tx_write(v, bytes).buf.len() == 82,
        tx_write(v, bytes).idx == v.idx + bytes.len(),
        TxBuffer::content(tx_write(v, bytes)) == TxBuffer::content(v) + bytes,
{
    assert(TxBuffer::content(tx_write(v, bytes)) =~= TxBuffer::content(v) + bytes);
}

/// A sentence assembled from `body` (after a reset) and closed by `finish` consists of `body`,
/// `*`, the two hex digits of the checksum of `body` and `\r\n`.
pub proof fn lemma_sent_sentence(v: TxView, body: Seq<u8>)
    requires
        v.buf.len() == 82,
        v.idx == 0,
        1 <= body.len() <= 77,
    ensures
        TxBuffer::content(tx_finish(tx_write(v, body))) == body + checksum_tail(xor_range(body, 1, body.len() as int)),
{
    let n = body.len() as int;
    lemma_tx_write_appends(v, body);
    let v1 = tx_write(v, body);
    assert(TxBuffer::content(v) =~= Seq::<u8>::empty());
    assert(TxBuffer::content(v1) =~= body);
    lemma_xor_range_same(v1.buf, body, 1, n);
    let cs = xor_range(body, 1, n);
    let t = checksum_tail(cs);
    lemma_tx_write_appends(v1, t.take(1));
    let v2 = tx_write(v1, t.take(1));
    lemma_tx_write_appends(v2, t.subrange(1, 3));
    let v3 = tx_write(v2, t.subrange(1, 3));
    lemma_tx_write_appends(v3, t.skip(3));
    assert(body + t.take(1) + t.subrange(1, 3) + t.skip(3) =~= body + t);
}

/// `body` followed by `*`, two hex digits and `\r` is a sentence the receiver takes.
proof fn lemma_sentence_shape(body: Seq<u8>, cs: u8)
    requires
        1 <= body.len() <= 77,
        body[0] == START,
        forall|k: int| 0 <= k < body.len() ==> body[k] != STAR && body[k] != CR,
    ensures
        is_received_sentence(body + checksum_tail(cs).take(4)),
{
    let n = body.len() as int;
    let s = body + checksum_tail(cs).take(4);
    assert(hex_digit(cs / 16) != CR && hex_digit(cs % 16) != CR);
    assert(s.len() == n + 4);
    assert(s.last() == CR);
    assert forall|k: int| 0 <= k < s.len() - 1 implies s[k] != CR by {
        if k < n {
            assert(s[k] == body[k]);
        }
    }
}

/// What the transmit buffer sends, the receive buffer accepts.
///
/// A sentence assembled from `body` (which starts with `$` and has no `*` and no `\r`) and
/// closed by `finish`, taken byte by byte by a waiting receiver, is complete at its `\r`, and
/// then passes the checksum test.
#[verifier::spinoff_prover]
pub proof fn lemma_sent_sentence_is_accepted(tx: TxView, rx: RxView, body: Seq<u8>)
    requires
        tx.buf.len() == 82,
        tx.idx == 0,
        !rx.receiving,
        rx.buf.len() == 82,
        1 <= body.len() <= 77,
        body[0] == START,
        forall|k: int| 0 <= k < body.len() ==> body[k] != STAR && body[k] != CR,
    ensures
        ({
            let sent = TxBuffer::content(tx_finish(tx_write(tx, body)));
            let upto_cr = sent.take(body.len() as int + 4);
            &&& rx_completes(rx, upto_cr)
            &&& rx_check_ok(rx_feed(rx, upto_cr))
        }),
{
    let n = body.len() as int;
    lemma_sent_sentence(tx, body);
    let cs = xor_range(body, 1, n);
    let t = checksum_tail(cs);
    let sent = TxBuffer::content(tx_finish(tx_write(tx, body)));
    assert(sent == body + t);
    let s = sent.take(n + 4);
    assert(s =~= body + t.take(4));
    lemma_sentence_shape(body, cs);
    lemma_receive_sentence(rx, s);
    lemma_check_accepts(rx_feed(rx, s), body);
}

/// The sentences that the device sends over NMEA; the caller writes each from the model.
#[derive(Clone, Copy, PartialEq, Eq, Debug, Structural)]
pub enum NmeaSentence {
    /// `$PLARS,L` with the value of a setting.
    Plars(PersistenceId),
    Gprmc,
    Gpgga,
    /// `$PLARW`, true for the wind of the rarely sent group.
    Plarw(bool),
    Plard,
    Plarb,
    Plara,
    Plarv,
}

/// The sentences waiting to be sent, last first.
pub uninterp spec fn queued_sentences(v: heapless::Vec<u8, 10>) -> Seq<u8>;

/// The settings waiting to be sent, by the numbers of their ids, front first.
pub uninterp spec fn queued_settings(q: Deque<u16, 16>) -> Seq<u16>;

/// `heapless::Vec::new`: nothing waiting.
#[verifier::external_body]
fn sentences_new() -> (r: heapless::Vec<u8, 10>)
    ensures
        queued_sentences(r) == Seq::<u8>::empty(),
{
    heapless::Vec::new()
}

/// `heapless::Vec::extend_from_slice`: appends all of `items` when they fit into the ten
/// places; otherwise changes nothing and fails.
#[verifier::external_body]
fn sentences_extend(v: &mut heapless::Vec<u8, 10>, items: &[u8]) -> (r: Result<(), ()>)
    ensures
        queued_sentences(*old(v)).len() + items@.len() <= 10 ==> r is Ok && queued_sentences(*final(v))
            == queued_sentences(*old(v)) + items@,
        queued_sentences(*old(v)).len() + items@.len() > 10 ==> r is Err && queued_sentences(*final(v))
            == queued_sentences(*old(v)),
{
    v.extend_from_slice(items)
}

/// `heapless::Vec::pop`: takes the last item, none when empty.
#[verifier::external_body]
fn sentences_pop(v: &mut heapless::Vec<u8, 10>) -> (r: Option<u8>)
    ensures
        queued_sentences(*old(v)).len() == 0 ==> r is None && queued_sentences(*final(v)) == queued_sentences(*old(v)),
        queued_sentences(*old(v)).len() > 0 ==> r == Some(queued_sentences(*old(v)).last()) && queued_sentences(*final(v))
            == queued_sentences(*old(v)).drop_last(),
{
    v.pop()
}

/// `Deque::new`: nothing waiting.
#[verifier::external_body]
fn settings_new() -> (r: Deque<u16, 16>)
    ensures
        queued_settings(r) == Seq::<u16>::empty(),
{
    Deque::new()
}

/// `Deque::push_back`: appends at the back unless the sixteen places are taken, in which case
/// the item comes back as the error and the queue is unchanged.
#[verifier::external_body]
fn settings_push(q: &mut Deque<u16, 16>, item: u16) -> (r: Result<(), u16>)
    ensures
        queued_settings(*old(q)).len() < 16 ==> r is Ok && queued_settings(*final(q)) == queued_settings(*old(q)).push(item),
        queued_settings(*old(q)).len() >= 16 ==> (r matches Err(x) && x == item) && queued_settings(*final(q))
            == queued_settings(*old(q)),
{
    q.push_back(item)
}

/// `Deque::pop_front`: takes the front item, none when the queue is empty.
#[verifier::external_body]
fn settings_pop(q: &mut Deque<u16, 16>) -> (r: Option<u16>)
    ensures
        queued_settings(*old(q)).len() == 0 ==> r is None && queued_settings(*final(q)) == queued_settings(*old(q)),
        queued_settings(*old(q)).len() > 0 ==> r == Some(queued_settings(*old(q))[0]) && queued_settings(*final(q))
            == queued_settings(*old(q)).drop_first(),
{
    q.pop_front()
}

/// The settings whose changes are sent over NMEA.
pub open spec fn is_nmea_setting(id: PersistenceId) -> bool {
    id == PersistenceId::Bugs || id == PersistenceId::McCready || id == PersistenceId::WaterBallast
        || id == PersistenceId::Qnh
}

/// The sentence of a number in the queue of waiting sentences.
pub open spec fn sentence_of(n: u8) -> Option<NmeaSentence> {
    if n == 0 {
        Some(NmeaSentence::Gprmc)
    } else if n == 1 {
        Some(NmeaSentence::Gpgga)
    } else if n == 2 {
        Some(NmeaSentence::Plarw(true))
    } else if n == 3 {
        Some(NmeaSentence::Plard)
    } else if n == 4 {
        Some(NmeaSentence::Plarb)
    } else if n == 5 {
        Some(NmeaSentence::Plarw(false))
    } else if n == 6 {
        Some(NmeaSentence::Plara)
    } else if n == 7 {
        Some(NmeaSentence::Plarv)
    } else {
        None
    }
}

/// The buffers of the NMEA interface and what waits to be sent.
pub struct NmeaBuffer {
    pub rx: RxBuffer,
    pub tx: TxBuffer,
    pub to_send: heapless::Vec<u8, 10>,
    pub pers_id: Deque<u16, 16>,
}

impl NmeaBuffer {
    /// The sentences waiting to be sent, by number; the last is sent first.
    pub open spec fn to_send(&self) -> Seq<u8> {
        queued_sentences(self.to_send)
    }

    /// The settings waiting to be sent, by the numbers of their ids, front first.
    pub open spec fn pers_ids(&self) -> Seq<u16> {
        queued_settings(self.pers_id)
    }

    /// Empty buffers, nothing waiting.
    pub fn new() -> (r: Self)
        ensures
            r.rx@ == (RxView { buf: Seq::new(82, |i: int| 0u8), idx: 0, chunk_idx: 0, receiving: false }),
            r.tx@ == (TxView { buf: Seq::new(82, |i: int| 0u8), idx: 0 }),
            r.to_send() == Seq::<u8>::empty(),
            r.pers_ids() == Seq::<u16>::empty(),
    {
        NmeaBuffer {
            rx: RxBuffer::new(),
            tx: TxBuffer::new(),
            to_send: sentences_new(),
            pers_id: settings_new(),
        }
    }

    /// Queues a changed setting for sending, if it is one that NMEA carries and there is room.
    pub fn nmea_send_config_data(&mut self, id: PersistenceId)
        ensures
            final(self).pers_ids() == if is_nmea_setting(id) && old(self).pers_ids().len() < 16 {
                old(self).pers_ids().push(id.code())
            } else {
                old(self).pers_ids()
            },
            final(self).to_send() == old(self).to_send(),
            final(self).rx == old(self).rx,
            final(self).tx == old(self).tx,
    {
        match id {
            PersistenceId::Bugs | PersistenceId::McCready | PersistenceId::WaterBallast
            | PersistenceId::Qnh => {
                // no error when the queue is full
                let _ = settings_push(&mut self.pers_id, id.to_u16());
            },
            _ => {},
        }
    }

    /// Queues the rarely sent sentences, once a second, when there is room for all of them.
    pub fn nmea_cyclic_1s(&mut self)
        ensures
            final(self).to_send() == if old(self).to_send().len() + 5 <= 10 {
                old(self).to_send() + seq![0u8, 1u8, 2u8, 3u8, 4u8]
            } else {
                old(self).to_send()
            },
            final(self).pers_ids() == old(self).pers_ids(),
            final(self).rx == old(self).rx,
            final(self).tx == old(self).tx,
    {
        let rare: [u8; 5] = [0, 1, 2, 3, 4];
        assert(rare@ == seq![0u8, 1u8, 2u8, 3u8, 4u8]);
        let _ = sentences_extend(&mut self.to_send, &rare);
    }

    /// Queues the often sent sentences, every 200 ms, when there is room for all of them.
    pub fn nmea_cyclic_200ms(&mut self)
        ensures
            final(self).to_send() == if old(self).to_send().len() + 3 <= 10 {
                old(self).to_send() + seq![5u8, 6u8, 7u8]
            } else {
                old(self).to_send()
            },
            final(self).pers_ids() == old(self).pers_ids(),
            final(self).rx == old(self).rx,
            final(self).tx == old(self).tx,
    {
        let often: [u8; 3] = [5, 6, 7];
        assert(often@ == seq![5u8, 6u8, 7u8]);
        let _ = sentences_extend(&mut self.to_send, &often);
    }

    /// The next sentence to send: a waiting setting first, then the last queued sentence.
    pub fn nmea_next(&mut self) -> (r: Option<NmeaSentence>)
        ensures
            old(self).pers_ids().len() > 0 ==> {
                &&& r == Some(NmeaSentence::Plars(persistence_id_from_code(old(self).pers_ids()[0])))
                &&& final(self).pers_ids() == old(self).pers_ids().drop_first()
                &&& final(self).to_send() == old(self).to_send()
            },
            old(self).pers_ids().len() == 0 && old(self).to_send().len() > 0 ==> {
                &&& r == sentence_of(old(self).to_send().last())
                &&& final(self).to_send() == old(self).to_send().drop_last()
                &&& final(self).pers_ids() == old(self).pers_ids()
            },
            old(self).pers_ids().len() == 0 && old(self).to_send().len() == 0 ==> {
                &&& r is None
                &&& final(self).to_send() == old(self).to_send()
                &&& final(self).pers_ids() == old(self).pers_ids()
            },
            final(self).rx == old(self).rx,
            final(self).tx == old(self).tx,
    {
        if let Some(code) = settings_pop(&mut self.pers_id) {
            return Some(NmeaSentence::Plars(PersistenceId::from(code)));
        }
        match sentences_pop(&mut self.to_send) {
            Some(n) => {
                if n == 0 {
                    Some(NmeaSentence::Gprmc)
                } else if n == 1 {
                    Some(NmeaSentence::Gpgga)
                } else if n == 2 {
                    Some(NmeaSentence::Plarw(true))
                } else if n == 3 {
                    Some(NmeaSentence::Plard)
                } else if n == 4 {
                    Some(NmeaSentence::Plarb)
                } else if n == 5 {
                    Some(NmeaSentence::Plarw(false))
                } else if n == 6 {
                    Some(NmeaSentence::Plara)
                } else if n == 7 {
                    Some(NmeaSentence::Plarv)
                } else {
                    None
                }
            },
            None => None,
        }
    }
}

/// A setting queued for sending by `nmea_send_config_data` comes out of `nmea_next` as the
/// sentence of that same setting, after the settings queued before it and before any cyclic
/// sentence.
pub proof fn lemma_setting_sent_as_queued(ids: Seq<u16>, id: PersistenceId)
    requires
        is_nmea_setting(id),
        ids.len() < 16,
    ensures
        persistence_id_from_code(ids.push(id.code())[ids.len() as int]) == id,
        ids.len() == 0 ==> persistence_id_from_code(ids.push(id.code())[0]) == id,
{
    lemma_persistence_id_code_roundtrip(id);
}

/// The settings that `$PLARS,L` reports (McCready, water ballast, bugs and QNH) are exactly the
/// ones sent over NMEA: each, queued by `nmea_send_config_data` while there is room, comes out of
/// `nmea_next` as its own `$PLARS` sentence, first when nothing waited before it.
pub proof fn lemma_plars_settings_are_sent(ids: Seq<u16>, id: PersistenceId)
    requires
        ids.len() < 16,
    ensures
        is_nmea_setting(id) <==> (id == PersistenceId::McCready || id == PersistenceId::WaterBallast || id
            == PersistenceId::Bugs || id == PersistenceId::Qnh),
        is_nmea_setting(id) ==> {
            let queued = if is_nmea_setting(id) && ids.len() < 16 { ids.push(id.code()) } else { ids };
            &&& queued.len() == ids.len() + 1
            &&& persistence_id_from_code(queued[ids.len() as int]) == id
            &&& ids.len() == 0 ==> NmeaSentence::Plars(persistence_id_from_code(queued[0])) == NmeaSentence::Plars(id)
        },
{
    lemma_persistence_id_code_roundtrip(id);
}

} // verus!

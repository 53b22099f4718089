//! The sentences that the device takes over NMEA: `$g` commands of a remote stick (vario mode
//! and keys) and `$PLARS,H` settings (McCready, ballast, bugs, QNH, circling).
//!
//! The parser reads the fields of a received sentence after its checksum was tested. The value
//! of a setting is handed on as the bytes of its field; reading them as a number and checking
//! its range is left to the caller.
use crate::error::CoreError;
use crate::model::{KeyEvent, VarioMode};
use crate::nmea_buffer::{
    checksum_tail, first_separator, lemma_receive_sentence, lemma_sent_sentence,
    lemma_sent_sentence_is_accepted, rx_check_ok, rx_completes, rx_feed, rx_step, tx_finish,
    tx_write, xor_range, RxBuffer, RxView, TxBuffer, TxView, COMMA, CR, START, STAR,
};
use crate::slices::same_bytes;
use vstd::prelude::*;
use vstd::slice::slice_to_vec;

verus! {

/// A setting that a `$PLARS,H` sentence changes.
#[derive(Clone, Copy, PartialEq, Eq, Debug, Structural)]
pub enum PlarsSetting {
    /// `MC`, the McCready value in m/s.
    McCready,
    /// `BAL`, the fraction of the water ballast.
    Ballast,
    /// `BUGS`, the degradation by bugs in percent.
    Bugs,
    /// `QNH` in hPa.
    Qnh,
    /// `CIR`, 1 for circling (vario), 0 for straight flight (speed to fly).
    Circling,
}

/// What a received sentence asks for.
#[derive(Debug)]
pub enum NmeaCommand {
    /// `$g,s0` and `$g,s1`.
    VarioMode(VarioMode),
    /// `$g,rp`, `$g,rl`, `$g,ru` and `$g,rd`: the remote stick's keys.
    Key(KeyEvent),
    /// `$PLARS,H,<setting>,<value>` with the bytes of the value field.
    Plars(PlarsSetting, Vec<u8>),
}

/// A command as a mathematical value.
pub enum NmeaCommandView {
    VarioMode(VarioMode),
    Key(KeyEvent),
    Plars(PlarsSetting, Seq<u8>),
}

impl View for NmeaCommand {
    type V = NmeaCommandView;

    open spec fn view(&self) -> NmeaCommandView {
        match self {
            NmeaCommand::VarioMode(m) => NmeaCommandView::VarioMode(*m),
            NmeaCommand::Key(k) => NmeaCommandView::Key(*k),
            NmeaCommand::Plars(s, v) => NmeaCommandView::Plars(*s, v@),
        }
    }
}

/// The next field and the buffer after it, as `RxBuffer::next_chunk` hands them out.
pub open spec fn spec_next_chunk(v: RxView) -> Option<(Seq<u8>, RxView)> {
    match first_separator(v.buf, v.chunk_idx, v.idx) {
        Some(p) => Some((v.buf.subrange(v.chunk_idx, p), RxView { chunk_idx: p + 1, ..v })),
        None => None,
    }
}

/// `$PLARS`.
pub open spec fn plars_tag() -> Seq<u8> {
    seq![36u8, 80u8, 76u8, 65u8, 82u8, 83u8]
}

/// `$g`.
pub open spec fn g_tag() -> Seq<u8> {
    seq![36u8, 103u8]
}

/// The command of the field after `$g`.
pub open spec fn g_command(field: Seq<u8>) -> Option<NmeaCommandView> {
    if field == seq![115u8, 48u8] {
        Some(NmeaCommandView::VarioMode(VarioMode::Vario))
    } else if field == seq![115u8, 49u8] {
        Some(NmeaCommandView::VarioMode(VarioMode::SpeedToFly))
    } else if field == seq![114u8, 112u8] {
        Some(NmeaCommandView::Key(KeyEvent::BtnEnc))
    } else if field == seq![114u8, 108u8] {
        Some(NmeaCommandView::Key(KeyEvent::BtnEncS3))
    } else if field == seq![114u8, 117u8] {
        Some(NmeaCommandView::Key(KeyEvent::Rotary2Left))
    } else if field == seq![114u8, 100u8] {
        Some(NmeaCommandView::Key(KeyEvent::Rotary2Right))
    } else {
        None
    }
}

/// The setting named by the field after `$PLARS,H`.
pub open spec fn plars_setting(field: Seq<u8>) -> Option<PlarsSetting> {
    if field == seq![77u8, 67u8] {
        Some(PlarsSetting::McCready)
    } else if field == seq![66u8, 65u8, 76u8] {
        Some(PlarsSetting::Ballast)
    } else if field == seq![66u8, 85u8, 71u8, 83u8] {
        Some(PlarsSetting::Bugs)
    } else if field == seq![81u8, 78u8, 72u8] {
        Some(PlarsSetting::Qnh)
    } else if field == seq![67u8, 73u8, 82u8] {
        Some(PlarsSetting::Circling)
    } else {
        None
    }
}

/// The command of the fields after `$g`, and the buffer after the fields read.
pub open spec fn parsed_g(v: RxView) -> (Option<NmeaCommandView>, RxView) {
    match spec_next_chunk(v) {
        None => (None, v),
        Some((field, w)) => (g_command(field), w),
    }
}

/// The command of the fields after `$PLARS`, and the buffer after the fields read: `H`, a
/// setting of at most ten bytes, and its value.
pub open spec fn parsed_plars(v: RxView) -> (Option<NmeaCommandView>, RxView) {
    match spec_next_chunk(v) {
        None => (None, v),
        Some((h, w1)) => if h != seq![72u8] {
            (None, w1)
        } else {
            match spec_next_chunk(w1) {
                None => (None, w1),
                Some((cmd, w2)) => if cmd.len() > 10 {
                    (None, w2)
                } else {
                    match spec_next_chunk(w2) {
                        None => (None, w2),
                        Some((value, w3)) => match plars_setting(cmd) {
                            Some(s) => (Some(NmeaCommandView::Plars(s, value)), w3),
                            None => (None, w3),
                        },
                    }
                },
            }
        },
    }
}

/// The command of a received sentence, and the buffer after the fields read. A sentence that
/// fails the checksum test, or whose first field is neither `$PLARS` nor `$g`, is no command.
pub open spec fn parsed_sentence(v: RxView) -> (Option<NmeaCommandView>, RxView) {
    if !rx_check_ok(v) {
        (None, v)
    } else {
        let w = RxView { chunk_idx: 0, ..v };
        match spec_next_chunk(w) {
            None => (None, w),
            Some((tag, w1)) => if tag == plars_tag() {
                parsed_plars(w1)
            } else if tag == g_tag() {
                parsed_g(w1)
            } else {
                (None, w1)
            },
        }
    }
}

/// Whether a parse result is the command `c`, or the parse error where there is none.
pub open spec fn is_outcome(r: Result<NmeaCommand, CoreError>, c: Option<NmeaCommandView>) -> bool {
    match c {
        Some(cv) => r matches Ok(cmd) && cmd@ == cv,
        None => r == Err::<NmeaCommand, CoreError>(CoreError::ParseError),
    }
}

/// The receive buffer after `bytes`, and the commands of the sentences that they completed,
/// in the order in which they were completed.
pub open spec fn recv_all(v: RxView, bytes: Seq<u8>) -> (RxView, Seq<NmeaCommandView>)
    decreases bytes.len(),
{
    if bytes.len() == 0 {
        (v, Seq::empty())
    } else {
        let prev = recv_all(v, bytes.drop_last());
        let (w, done) = rx_step(prev.0, bytes.last());
        if done {
            let (c, w2) = parsed_sentence(w);
            (
                w2,
                match c {
                    Some(cv) => prev.1.push(cv),
                    None => prev.1,
                },
            )
        } else {
            (w, prev.1)
        }
    }
}

/// Reads the command of the fields after `$g`.
pub fn nmea_parse_g(rx: &mut RxBuffer) -> (r: Result<NmeaCommand, CoreError>)
    ensures
        is_outcome(r, parsed_g(old(rx)@).0),
        final(rx)@ == parsed_g(old(rx)@).1,
{
    let field = match rx.next_chunk() {
        Ok(f) => f,
        Err(e) => return Err(e),
    };
    let s0: [u8; 2] = [115, 48];
    let s1: [u8; 2] = [115, 49];
    let rp: [u8; 2] = [114, 112];
    let rl: [u8; 2] = [114, 108];
    let ru: [u8; 2] = [114, 117];
    let rd: [u8; 2] = [114, 100];
    assert(s0@ == seq![115u8, 48u8]);
    assert(s1@ == seq![115u8, 49u8]);
    assert(rp@ == seq![114u8, 112u8]);
    assert(rl@ == seq![114u8, 108u8]);
    assert(ru@ == seq![114u8, 117u8]);
    assert(rd@ == seq![114u8, 100u8]);
    if same_bytes(field, &s0) {
        Ok(NmeaCommand::VarioMode(VarioMode::Vario))
    } else if same_bytes(field, &s1) {
        Ok(NmeaCommand::VarioMode(VarioMode::SpeedToFly))
    } else if same_bytes(field, &rp) {
        Ok(NmeaCommand::Key(KeyEvent::BtnEnc))
    } else if same_bytes(field, &rl) {
        Ok(NmeaCommand::Key(KeyEvent::BtnEncS3))
    } else if same_bytes(field, &ru) {
        Ok(NmeaCommand::Key(KeyEvent::Rotary2Left))
    } else if same_bytes(field, &rd) {
        Ok(NmeaCommand::Key(KeyEvent::Rotary2Right))
    } else {
        Err(CoreError::ParseError)
    }
}

/// The setting that a field names.
fn plars_setting_of(field: &[u8]) -> (r: Option<PlarsSetting>)
    ensures
        r == plars_setting(field@),
{
    let mc: [u8; 2] = [77, 67];
    let bal: [u8; 3] = [66, 65, 76];
    let bugs: [u8; 4] = [66, 85, 71, 83];
    let qnh: [u8; 3] = [81, 78, 72];
    let cir: [u8; 3] = [67, 73, 82];
    assert(mc@ == seq![77u8, 67u8]);
    assert(bal@ == seq![66u8, 65u8, 76u8]);
    assert(bugs@ == seq![66u8, 85u8, 71u8, 83u8]);
    assert(qnh@ == seq![81u8, 78u8, 72u8]);
    assert(cir@ == seq![67u8, 73u8, 82u8]);
    if same_bytes(field, &mc) {
        Some(PlarsSetting::McCready)
    } else if same_bytes(field, &bal) {
        Some(PlarsSetting::Ballast)
    } else if same_bytes(field, &bugs) {
        Some(PlarsSetting::Bugs)
    } else if same_bytes(field, &qnh) {
        Some(PlarsSetting::Qnh)
    } else if same_bytes(field, &cir) {
        Some(PlarsSetting::Circling)
    } else {
        None
    }
}

/// Reads the setting and its value from the fields after `$PLARS`.
pub fn nmea_parse_plars(rx: &mut RxBuffer) -> (r: Result<NmeaCommand, CoreError>)
    ensures
        is_outcome(r, parsed_plars(old(rx)@).0),
        final(rx)@ == parsed_plars(old(rx)@).1,
{
    let h: [u8; 1] = [72];
    assert(h@ == seq![72u8]);
    match rx.compare_chunk(&h) {
        Ok(()) => {},
        Err(e) => return Err(e),
    }
    let setting = match rx.next_chunk() {
        Ok(cmd) => {
            if cmd.len() > 10 {
                return Err(CoreError::ParseError);
            }
            plars_setting_of(cmd)
        },
        Err(e) => return Err(e),
    };
    let value = match rx.next_chunk() {
        Ok(v) => slice_to_vec(v),
        Err(e) => return Err(e),
    };
    match setting {
        Some(s) => Ok(NmeaCommand::Plars(s, value)),
        None => Err(CoreError::ParseError),
    }
}

/// Tests the checksum of a received sentence and reads its command.
pub fn nmea_parse(rx: &mut RxBuffer) -> (r: Result<NmeaCommand, CoreError>)
    ensures
        is_outcome(r, parsed_sentence(old(rx)@).0),
        final(rx)@ == parsed_sentence(old(rx)@).1,
{
    match rx.check() {
        Ok(()) => {},
        Err(e) => return Err(e),
    }
    let plars: [u8; 6] = [36, 80, 76, 65, 82, 83];
    let g: [u8; 2] = [36, 103];
    assert(plars@ == plars_tag());
    assert(g@ == g_tag());
    let kind: u8 = match rx.next_chunk() {
        Ok(tag) => {
            if same_bytes(tag, &plars) {
                0
            } else if same_bytes(tag, &g) {
                1
            } else {
                return Err(CoreError::ParseError);
            }
        },
        Err(e) => return Err(e),
    };
    if kind == 0 {
        nmea_parse_plars(rx)
    } else {
        nmea_parse_g(rx)
    }
}

/// Takes one received byte; when it completes a sentence, the sentence's command, if it has
/// one.
pub fn nmea_recv_u8(rx: &mut RxBuffer, b: u8) -> (r: Option<NmeaCommand>)
    ensures
        ({
            let (w, done) = rx_step(old(rx)@, b);
            if done {
                &&& final(rx)@ == parsed_sentence(w).1
                &&& match parsed_sentence(w).0 {
                    Some(cv) => r matches Some(cmd) && cmd@ == cv,
                    None => r is None,
                }
            } else {
                final(rx)@ == w && r is None
            }
        }),
{
    if rx.recv_u8(b) {
        match nmea_parse(rx) {
            Ok(cmd) => Some(cmd),
            Err(_) => None,
        }
    } else {
        None
    }
}

/// Takes received bytes one after the other and collects the commands of the sentences
/// that they complete.
pub fn nmea_recv_slice(rx: &mut RxBuffer, bytes: &[u8]) -> (r: Vec<NmeaCommand>)
    ensures
        final(rx)@ == recv_all(old(rx)@, bytes@).0,
        r@.map_values(|c: NmeaCommand| c@) == recv_all(old(rx)@, bytes@).1,
{
    let mut cmds: Vec<NmeaCommand> = Vec::new();
    let mut i: usize = 0;
    assert(bytes@.take(0) =~= Seq::<u8>::empty());
    assert(cmds@.map_values(|c: NmeaCommand| c@) =~= Seq::<NmeaCommandView>::empty());
    while i < bytes.len()
        invariant
            i <= bytes@.len(),
            rx@ == recv_all(old(rx)@, bytes@.take(i as int)).0,
            cmds@.map_values(|c: NmeaCommand| c@) == recv_all(old(rx)@, bytes@.take(i as int)).1,
        decreases bytes@.len() - i,
    {
        let ghost before = cmds@.map_values(|c: NmeaCommand| c@);
        assert(bytes@.take(i + 1).drop_last() =~= bytes@.take(i as int));
        assert(bytes@.take(i + 1).last() == bytes@[i as int]);
        match nmea_recv_u8(rx, bytes[i]) {
            Some(cmd) => {
                let ghost cv = cmd@;
                cmds.push(cmd);
                assert(cmds@.map_values(|c: NmeaCommand| c@) =~= before.push(cv));
            },
            None => {},
        }
        i += 1;
    }
    assert(bytes@.take(bytes@.len() as int) =~= bytes@);
    cmds
}

/// The first separator in a range is at `p` when there is none before it.
proof fn lemma_first_separator_at(buf: Seq<u8>, from: int, to: int, p: int)
    requires
        from <= p < to,
        buf[p] == 44 || buf[p] == 42,
        forall|k: int| from <= k < p ==> buf[k] != 44 && buf[k] != 42,
    ensures
        first_separator(buf, from, to) == Some(p),
    decreases p - from,
{
    if from < p {
        lemma_first_separator_at(buf, from + 1, to, p);
    }
}

/// What the transmit buffer sends as `$g,<field>`, the receiver parses as the command of
/// `field`.
///
/// The sentence is assembled from `$g,` and `field` (which holds no `,`, `*` or `\r`) after a
/// reset and closed by `finish`; a waiting receiver takes it byte by byte up to its `\r`.
pub proof fn lemma_sent_g_command_is_parsed(tx: TxView, rx: RxView, field: Seq<u8>)
    requires
        tx.buf.len() == 82,
        tx.idx == 0,
        !rx.receiving,
        rx.buf.len() == 82,
        field.len() <= 74,
        forall|k: int| 0 <= k < field.len() ==> field[k] != COMMA && field[k] != STAR && field[k] != CR,
    ensures
        ({
            let body = g_tag().push(COMMA) + field;
            let sent = TxBuffer::content(tx_finish(tx_write(tx, body)));
            let upto_cr = sent.take(body.len() as int + 4);
            &&& rx_completes(rx, upto_cr)
            &&& parsed_sentence(rx_feed(rx, upto_cr)).0 == g_command(field)
        }),
{
    let body = g_tag().push(COMMA) + field;
    let n = body.len() as int;
    assert(g_tag().push(COMMA) =~= seq![36u8, 103u8, 44u8]);
    assert(body.len() == field.len() + 3);
    assert(body[0] == 36 && body[1] == 103 && body[2] == 44);
    assert(body[0] == START);
    assert forall|k: int| 0 <= k < body.len() implies body[k] != STAR && body[k] != CR by {
        if k >= 3 {
            assert(body[k] == field[k - 3]);
        }
    }
    lemma_sent_sentence_is_accepted(tx, rx, body);
    lemma_sent_sentence(tx, body);
    let cs = xor_range(body, 1, n);
    let sent = TxBuffer::content(tx_finish(tx_write(tx, body)));
    let s = sent.take(n + 4);
    assert(s =~= body + checksum_tail(cs).take(4));
    lemma_receive_sentence(rx, s);
    let v = rx_feed(rx, s);
    assert(v.idx == n + 4);
    assert forall|k: int| 0 <= k < n + 4 implies v.buf[k] == s[k] by {
        assert(v.buf.take(n + 4)[k] == s[k]);
    }
    assert forall|k: int| 0 <= k < n implies v.buf[k] == body[k] by {
        assert(v.buf[k] == s[k]);
        assert(s[k] == body[k]);
    }
    assert(body[2] == COMMA);
    assert(v.buf[0] == 36 && v.buf[1] == 103);
    lemma_first_separator_at(v.buf, 0, n + 4, 2);
    assert(v.buf.subrange(0, 2) =~= g_tag());
    assert forall|k: int| 3 <= k < n implies v.buf[k] != 44 && v.buf[k] != 42 by {
        assert(v.buf[k] == body[k]);
        assert(body[k] == field[k - 3]);
    }
    assert(v.buf[n] == s[n]);
    assert(v.buf[n] == STAR);
    lemma_first_separator_at(v.buf, 3, n + 4, n);
    assert forall|k: int| 0 <= k < field.len() implies v.buf.subrange(3, n)[k] == field[k] by {
        assert(v.buf[k + 3] == body[k + 3]);
    }
    assert(v.buf.subrange(3, n) =~= field);
}

} // verus!

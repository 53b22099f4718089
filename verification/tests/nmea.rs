use larus_core::error::CoreError;
use larus_core::model::{KeyEvent, VarioMode};
use larus_core::nmea_buffer::{NmeaBuffer, NmeaSentence, RxBuffer, TxBuffer};
use larus_core::nmea_command::{
    nmea_parse, nmea_parse_g, nmea_parse_plars, nmea_recv_slice, nmea_recv_u8, NmeaCommand,
    PlarsSetting,
};
use larus_core::persist::PersistenceId;

fn sentence(body: &str) -> Vec<u8> {
    let mut tx = TxBuffer::new();
    tx.write_str(body);
    tx.finish().to_vec()
}

fn received(bytes: &[u8]) -> RxBuffer {
    let mut rx = RxBuffer::new();
    let mut completed = 0;
    for b in bytes {
        if rx.recv_u8(*b) {
            completed += 1;
        }
    }
    assert_eq!(completed, 1);
    rx
}

#[test]
fn finish_appends_checksum_of_plars_sentences() {
    assert_eq!(sentence("$PLARS,L,MC,1.7"), b"$PLARS,L,MC,1.7*1A\r\n".to_vec());
    assert_eq!(sentence("$PLARS,L,BAL,1.26"), b"$PLARS,L,BAL,1.26*68\r\n".to_vec());
    assert_eq!(sentence("$PLARS,L,BUGS,23"), b"$PLARS,L,BUGS,23*3E\r\n".to_vec());
    assert_eq!(sentence("$PLARS,L,QNH,1031.4"), b"$PLARS,L,QNH,1031.4*72\r\n".to_vec());
}

#[test]
fn finish_appends_checksum_of_other_sentences() {
    assert_eq!(
        sentence("$GPGGA,120520.00,4941.39652,S,835.06958,W,2,23,1.0,2745.9,M,12.3,M,,"),
        b"$GPGGA,120520.00,4941.39652,S,835.06958,W,2,23,1.0,2745.9,M,12.3,M,,*56\r\n".to_vec()
    );
    assert_eq!(
        sentence("$GPRMC,120520.00,A,4941.39652,N,835.06958,E,123.4,321.4,230623,,,A"),
        b"$GPRMC,120520.00,A,4941.39652,N,835.06958,E,123.4,321.4,230623,,,A*53\r\n".to_vec()
    );
    assert_eq!(sentence("$HCHDT,123.4,T"), b"$HCHDT,123.4,T*2D\r\n".to_vec());
    assert_eq!(sentence("$PLARA,123.4,98.7,12.3"), b"$PLARA,123.4,98.7,12.3*4E\r\n".to_vec());
    assert_eq!(sentence("$PLARB,13.12"), b"$PLARB,13.12*4E\r\n".to_vec());
    assert_eq!(sentence("$PLARD,922.54,M"), b"$PLARD,922.54,M*10\r\n".to_vec());
    assert_eq!(sentence("$PLARV,2.50,1.25,305,111"), b"$PLARV,2.50,1.25,305,111*5F\r\n".to_vec());
    assert_eq!(sentence("$PLARW,321,46,A,A"), b"$PLARW,321,46,A,A*6A\r\n".to_vec());
    assert_eq!(sentence("$PLARW,321,46,I,A"), b"$PLARW,321,46,I,A*62\r\n".to_vec());
}

#[test]
fn tx_write_bytes_drops_what_does_not_fit() {
    let mut tx = TxBuffer::new();
    tx.write_bytes(&[b'$'; 80]);
    tx.write_bytes(b"abc");
    tx.write_bytes(b"xy");
    let out = tx.finish().to_vec();
    // 82 bytes: the 80 `$`, then `xy`; the tail did not fit any more
    assert_eq!(out.len(), 82);
    assert_eq!(&out[80..], b"xy");
    tx.reset();
    tx.write_str("$AB");
    assert_eq!(tx.finish(), b"$AB*03\r\n");
}

#[test]
fn rx_waits_for_dollar_and_completes_at_cr() {
    let mut rx = RxBuffer::new();
    assert!(!rx.recv_u8(b'x'));
    assert!(!rx.recv_u8(b'\r'));
    assert!(!rx.recv_u8(b'$'));
    assert!(!rx.recv_u8(b'a'));
    assert!(rx.recv_u8(b'\r'));
    assert!(!rx.recv_u8(b'\r'));
}

#[test]
fn rx_drops_too_long_sentences() {
    let mut rx = RxBuffer::new();
    assert!(!rx.recv_u8(b'$'));
    for _ in 0..81 {
        assert!(!rx.recv_u8(b'a'));
    }
    // the buffer is full: the next byte drops the sentence
    assert!(!rx.recv_u8(b'\r'));
    assert!(!rx.recv_u8(b'\r'));
}

#[test]
fn rx_chunks_and_checksum() {
    let bytes = sentence("$PLARS,H,MC,1.7");
    let mut rx = received(&bytes);
    assert_eq!(rx.check(), Ok(()));
    assert_eq!(rx.next_chunk(), Ok(&b"$PLARS"[..]));
    assert_eq!(rx.compare_chunk(b"H"), Ok(()));
    assert_eq!(rx.compare_chunk(b"QNH"), Err(CoreError::ParseError));
    assert_eq!(rx.next_chunk(), Ok(&b"1.7"[..]));
    // after the `*` there is no further separator
    assert_eq!(rx.next_chunk(), Err(CoreError::ParseError));
}

#[test]
fn rx_check_rejects_bad_checksum_and_missing_star() {
    let mut rx = received(b"$PLARS,H,MC,1.7*00\r");
    assert_eq!(rx.check(), Err(CoreError::ParseError));
    let mut rx = received(b"$PLARS,H,MC,1.7\r");
    assert_eq!(rx.check(), Err(CoreError::ParseError));
    // one matching digit is enough
    let mut rx = received(b"$PLARS,H,MC,1.7*10\r");
    assert_eq!(rx.check(), Ok(()));
}

#[test]
fn parse_g_commands() {
    let cases: [(&str, NmeaCommand); 6] = [
        ("$g,s0", NmeaCommand::VarioMode(VarioMode::Vario)),
        ("$g,s1", NmeaCommand::VarioMode(VarioMode::SpeedToFly)),
        ("$g,rp", NmeaCommand::Key(KeyEvent::BtnEnc)),
        ("$g,rl", NmeaCommand::Key(KeyEvent::BtnEncS3)),
        ("$g,ru", NmeaCommand::Key(KeyEvent::Rotary2Left)),
        ("$g,rd", NmeaCommand::Key(KeyEvent::Rotary2Right)),
    ];
    for (body, expected) in cases {
        let mut rx = received(&sentence(body));
        let got = nmea_parse(&mut rx);
        assert_eq!(format!("{:?}", got), format!("{:?}", Ok::<NmeaCommand, CoreError>(expected)));
    }
    let mut rx = received(&sentence("$g,xx"));
    assert!(matches!(nmea_parse(&mut rx), Err(CoreError::ParseError)));
}

#[test]
fn parse_plars_commands() {
    let cases: [(&str, PlarsSetting, &[u8]); 5] = [
        ("$PLARS,H,MC,1.5", PlarsSetting::McCready, b"1.5"),
        ("$PLARS,H,BAL,0.5", PlarsSetting::Ballast, b"0.5"),
        ("$PLARS,H,BUGS,10", PlarsSetting::Bugs, b"10"),
        ("$PLARS,H,QNH,1013.2", PlarsSetting::Qnh, b"1013.2"),
        ("$PLARS,H,CIR,1", PlarsSetting::Circling, b"1"),
    ];
    for (body, setting, value) in cases {
        let mut rx = received(&sentence(body));
        match nmea_parse(&mut rx) {
            Ok(NmeaCommand::Plars(s, v)) => {
                assert_eq!(s, setting);
                assert_eq!(v, value.to_vec());
            }
            other => panic!("unexpected {:?}", other),
        }
    }
}

#[test]
fn parse_rejects_malformed_sentences() {
    for body in [
        "$PLARS,L,MC,1.5",
        "$PLARS,H,XX,1.5",
        "$PLARS,H,ABCDEFGHIJK,1.5",
        "$PLARS,H,MC",
        "$GPGGA,1,2",
        "$g",
    ] {
        let mut rx = received(&sentence(body));
        assert!(matches!(nmea_parse(&mut rx), Err(CoreError::ParseError)), "{}", body);
    }
    // a broken checksum is no command either
    let mut rx = received(b"$g,s1*11\r");
    assert!(matches!(nmea_parse(&mut rx), Err(CoreError::ParseError)));
}

#[test]
fn parse_g_and_plars_read_their_fields() {
    let mut rx = received(&sentence("$g,s1"));
    assert_eq!(rx.check(), Ok(()));
    assert_eq!(rx.next_chunk(), Ok(&b"$g"[..]));
    assert!(matches!(nmea_parse_g(&mut rx), Ok(NmeaCommand::VarioMode(VarioMode::SpeedToFly))));

    let mut rx = received(&sentence("$PLARS,H,QNH,1000"));
    assert_eq!(rx.check(), Ok(()));
    assert_eq!(rx.next_chunk(), Ok(&b"$PLARS"[..]));
    match nmea_parse_plars(&mut rx) {
        Ok(NmeaCommand::Plars(PlarsSetting::Qnh, v)) => assert_eq!(v, b"1000".to_vec()),
        other => panic!("unexpected {:?}", other),
    }
}

#[test]
fn recv_collects_commands_of_completed_sentences() {
    let mut bytes = b"noise".to_vec();
    bytes.extend(sentence("$g,s1"));
    bytes.extend(sentence("$PLARS,H,MC,2.0"));
    bytes.extend(b"$g,s0*11\r\n");
    bytes.extend(sentence("$g,rp"));
    let mut rx = RxBuffer::new();
    let cmds = nmea_recv_slice(&mut rx, &bytes);
    assert_eq!(cmds.len(), 3);
    assert!(matches!(cmds[0], NmeaCommand::VarioMode(VarioMode::SpeedToFly)));
    assert!(matches!(&cmds[1], NmeaCommand::Plars(PlarsSetting::McCready, v) if v == b"2.0"));
    assert!(matches!(cmds[2], NmeaCommand::Key(KeyEvent::BtnEnc)));

    let mut rx = RxBuffer::new();
    let mut got = None;
    for b in sentence("$g,rd") {
        if let Some(c) = nmea_recv_u8(&mut rx, b) {
            got = Some(c);
        }
    }
    assert!(matches!(got, Some(NmeaCommand::Key(KeyEvent::Rotary2Right))));
}

#[test]
fn nmea_buffer_sends_settings_first_then_last_queued() {
    let mut nb = NmeaBuffer::new();
    assert_eq!(nb.nmea_next(), None);
    nb.nmea_cyclic_1s();
    nb.nmea_cyclic_200ms();
    nb.nmea_send_config_data(PersistenceId::Qnh);
    nb.nmea_send_config_data(PersistenceId::Volume);
    nb.nmea_send_config_data(PersistenceId::McCready);
    assert_eq!(nb.nmea_next(), Some(NmeaSentence::Plars(PersistenceId::Qnh)));
    assert_eq!(nb.nmea_next(), Some(NmeaSentence::Plars(PersistenceId::McCready)));
    assert_eq!(nb.nmea_next(), Some(NmeaSentence::Plarv));
    assert_eq!(nb.nmea_next(), Some(NmeaSentence::Plara));
    assert_eq!(nb.nmea_next(), Some(NmeaSentence::Plarw(false)));
    assert_eq!(nb.nmea_next(), Some(NmeaSentence::Plarb));
    assert_eq!(nb.nmea_next(), Some(NmeaSentence::Plard));
    assert_eq!(nb.nmea_next(), Some(NmeaSentence::Plarw(true)));
    assert_eq!(nb.nmea_next(), Some(NmeaSentence::Gpgga));
    assert_eq!(nb.nmea_next(), Some(NmeaSentence::Gprmc));
    assert_eq!(nb.nmea_next(), None);
}

#[test]
fn nmea_buffer_queues_only_what_fits() {
    let mut nb = NmeaBuffer::new();
    nb.nmea_cyclic_1s();
    nb.nmea_cyclic_1s();
    // ten places are taken: nothing more fits
    nb.nmea_cyclic_200ms();
    let mut n = 0;
    while let Some(s) = nb.nmea_next() {
        assert!(s != NmeaSentence::Plara);
        n += 1;
    }
    assert_eq!(n, 10);

    let mut nb = NmeaBuffer::new();
    for _ in 0..20 {
        nb.nmea_send_config_data(PersistenceId::Bugs);
    }
    let mut n = 0;
    while let Some(s) = nb.nmea_next() {
        assert_eq!(s, NmeaSentence::Plars(PersistenceId::Bugs));
        n += 1;
    }
    assert_eq!(n, 16);
}

use dirt::codec::{decode, decode_strings, encode, extract_cstr, DecodeError};
use dirt::schema::{EventType, FileEvent, RECORD_LEN};
use dirt::strbuf::{write_bounded, MAX_FILENAME_LEN, MAX_PATH_LEN, NAME_BUF_LEN, PATH_BUF_LEN};

fn sample_event() -> FileEvent {
    let mut ev = FileEvent::blank();
    ev.event_type = EventType::Rename;
    ev.target_dev = 42;
    ev.ret_val = 0;
    write_bounded(&mut ev.src_path, &b"/mnt/x/a.txt".to_vec());
    write_bounded(&mut ev.src_file, &b"a.txt".to_vec());
    write_bounded(&mut ev.trgt_path, &b"/mnt/x/b.txt".to_vec());
    write_bounded(&mut ev.trgt_file, &b"b.txt".to_vec());
    ev
}

#[test]
fn record_len_is_fixed() {
    assert_eq!(MAX_PATH_LEN, 4096);
    assert_eq!(MAX_FILENAME_LEN, 256);
    assert_eq!(PATH_BUF_LEN, MAX_PATH_LEN + 1);
    assert_eq!(NAME_BUF_LEN, MAX_FILENAME_LEN + 1);
    assert_eq!(RECORD_LEN, 1 + 4 + 4 + 2 * PATH_BUF_LEN + 2 * NAME_BUF_LEN);
    assert_eq!(RECORD_LEN, 8717);
}

#[test]
fn encode_decode_round_trip() {
    let ev = sample_event();
    let rec = encode(&ev);
    assert_eq!(rec.bytes.len(), RECORD_LEN);
    let back = decode(&rec.bytes).unwrap();
    assert_eq!(back.event_type, ev.event_type);
    assert_eq!(back.target_dev, ev.target_dev);
    assert_eq!(back.ret_val, ev.ret_val);
    assert_eq!(back.src_path, ev.src_path);
    assert_eq!(back.src_file, ev.src_file);
    assert_eq!(back.trgt_path, ev.trgt_path);
    assert_eq!(back.trgt_file, ev.trgt_file);
}

#[test]
fn negative_ret_val_round_trips() {
    let mut ev = sample_event();
    ev.ret_val = -13;
    let rec = encode(&ev);
    let back = decode(&rec.bytes).unwrap();
    assert_eq!(back.ret_val, -13);
}

#[test]
fn decoding_twice_gives_identical_events() {
    let rec = encode(&sample_event());
    let once = decode(&rec.bytes).unwrap();
    let twice = decode(&rec.bytes).unwrap();
    assert_eq!(once.event_type, twice.event_type);
    assert_eq!(once.target_dev, twice.target_dev);
    assert_eq!(once.ret_val, twice.ret_val);
    assert_eq!(once.src_path, twice.src_path);
    assert_eq!(once.src_file, twice.src_file);
    assert_eq!(once.trgt_path, twice.trgt_path);
    assert_eq!(once.trgt_file, twice.trgt_file);
    let d1 = decode_strings(&once);
    let d2 = decode_strings(&twice);
    assert_eq!(d1.src_path, d2.src_path);
    assert_eq!(d1.trgt_file, d2.trgt_file);
}

#[test]
fn undersized_record_is_rejected() {
    assert!(matches!(decode(&Vec::new()), Err(DecodeError::WrongLength)));
    assert!(matches!(decode(&vec![0u8; RECORD_LEN - 1]), Err(DecodeError::WrongLength)));
}

#[test]
fn oversized_record_is_rejected() {
    assert!(matches!(decode(&vec![0u8; RECORD_LEN + 1]), Err(DecodeError::WrongLength)));
}

#[test]
fn unknown_discriminator_is_rejected() {
    let mut bytes = vec![0u8; RECORD_LEN];
    bytes[0] = 9;
    assert!(matches!(decode(&bytes), Err(DecodeError::BadEventType)));
}

#[test]
fn all_discriminators_decode() {
    for (tag, et) in [
        (0u8, EventType::Unlink),
        (1u8, EventType::Create),
        (2u8, EventType::Rename),
    ] {
        let mut bytes = vec![0u8; RECORD_LEN];
        bytes[0] = tag;
        assert_eq!(decode(&bytes).unwrap().event_type, et);
    }
}

#[test]
fn extract_stops_at_first_zero() {
    let buf = vec![b'a', b'b', 0, b'z', 0];
    assert_eq!(extract_cstr(&buf), b"ab".to_vec());
}

#[test]
fn extract_without_terminator_uses_full_capacity() {
    let buf = vec![b'x'; 5];
    assert_eq!(extract_cstr(&buf), buf);
}

#[test]
fn ingest_yields_the_consumer_event() {
    let ev = sample_event();
    let rec = encode(&ev);
    let got = dirt::codec::ingest(&rec.bytes).unwrap();
    assert_eq!(got.event_type, EventType::Rename);
    assert_eq!(got.target_dev, 42);
    assert_eq!(got.src_path, b"/mnt/x/a.txt".to_vec());
    assert_eq!(got.trgt_file, b"b.txt".to_vec());
    assert!(matches!(
        dirt::codec::ingest(&vec![0u8; 3]),
        Err(DecodeError::WrongLength)
    ));
}

#[test]
fn decode_strings_drops_stale_tail() {
    let mut ev = sample_event();
    // Overwrite with a shorter path: the bytes of the longer one stay
    // behind the terminator and must not show up in the decoded event.
    write_bounded(&mut ev.src_path, &b"/mnt".to_vec());
    let d = decode_strings(&ev);
    assert_eq!(d.src_path, b"/mnt".to_vec());
    assert_eq!(d.src_file, b"a.txt".to_vec());
}

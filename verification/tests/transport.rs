use dirt::codec::{decode, decode_strings, encode};
use dirt::filter::DeviceFilter;
use dirt::hooks::{lsm_path_unlink, DentryArg, RET_ALLOW};
use dirt::schema::{FileEvent, RECORD_LEN};
use dirt::scratch::ScratchSlot;
use dirt::strbuf::write_bounded;
use dirt::transport::Transport;

fn record_with_path(path: &[u8]) -> dirt::transport::Record {
    let mut ev = FileEvent::blank();
    write_bounded(&mut ev.src_path, &path.to_vec());
    encode(&ev)
}

#[test]
fn publish_fails_on_a_full_ring() {
    // 16384 bytes hold one whole record and no second one.
    let mut t = Transport::with_byte_size(16384);
    assert!(RECORD_LEN <= 16384 && 2 * RECORD_LEN > 16384);
    assert!(t.publish(record_with_path(b"/one")));
    assert!(!t.publish(record_with_path(b"/two")));
    assert!(!t.publish(record_with_path(b"/three")));
    assert_eq!(t.len(), 1);
    let s = t.stats();
    assert_eq!(s.published, 1);
    assert_eq!(s.dropped, 2);
}

#[test]
fn records_come_out_in_publication_order() {
    let mut t = Transport::with_byte_size(65536);
    assert!(t.publish(record_with_path(b"/first")));
    assert!(t.publish(record_with_path(b"/second")));
    let a = t.poll().unwrap();
    let b = t.poll().unwrap();
    assert_eq!(decode_strings(&decode(&a.bytes).unwrap()).src_path, b"/first".to_vec());
    assert_eq!(decode_strings(&decode(&b.bytes).unwrap()).src_path, b"/second".to_vec());
    assert!(t.poll().is_none());
}

#[test]
fn polling_an_empty_ring_gives_nothing() {
    let mut t = Transport::with_byte_size(16384);
    assert!(t.poll().is_none());
    assert_eq!(t.stats().published, 0);
}

#[test]
fn scenario_overflow_leaves_the_stream_clean() {
    // Fill the ring past capacity through the hook itself: publishes during
    // the overflow are absent from the decoded stream, and everything that
    // does come out decodes cleanly.
    let mut f = DeviceFilter::new();
    f.set(42);
    let mut slot = ScratchSlot::new();
    let mut t = Transport::with_byte_size(32768);
    // Three whole records fit in 32768 bytes; publish five.
    for i in 0..5u8 {
        let path = vec![b'a' + i; 10];
        let d = DentryArg { device: Some(42), name: b"f".to_vec() };
        assert_eq!(lsm_path_unlink(&f, &mut slot, &mut t, Some(&path), Some(&d)), RET_ALLOW);
    }
    assert_eq!(t.len(), 3);
    let s = t.stats();
    assert_eq!(s.published, 3);
    assert_eq!(s.dropped, 2);
    let mut seen = Vec::new();
    while let Some(rec) = t.poll() {
        assert_eq!(rec.bytes.len(), RECORD_LEN);
        let got = decode_strings(&decode(&rec.bytes).expect("no malformed record may appear"));
        seen.push(got.src_path);
    }
    // Exactly the first three publishes survived, in order.
    assert_eq!(seen, vec![vec![b'a'; 10], vec![b'b'; 10], vec![b'c'; 10]]);
}

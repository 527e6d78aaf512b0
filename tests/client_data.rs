use davsave::client_data::BWSaveGameClientDataReader;
use davsave::error::SaveError;
use davsave::writer::BWSaveGameWriter;

fn enc(v: u32) -> Vec<u8> {
    BWSaveGameWriter::shift_chunk_size(v)
}

/// `v` in exactly three groups, padded with empty groups where needed.
fn three(v: u32) -> Vec<u8> {
    let mut e = enc(v);
    while e.len() < 3 {
        let last = e.len() - 1;
        e[last] |= 0x80;
        e.push(0x00);
    }
    e
}

/// A client-data record with two small outer chunks, an appearance
/// sub-record of `payload` bytes, and `tail` after it.
fn record(two: bool, server_offset: u32, payload: usize, fill: u8, tail: &[u8]) -> Vec<u8> {
    let mut d: Vec<u8> = vec![0x82, 0, 0, 0];
    d.extend([0xAA; 8]);
    if two {
        let e = enc(server_offset);
        assert_eq!(e.len(), 2);
        d.extend(e);
        d.push(0xBB);
        d.push(0x63);
        d.extend([0xCC; 14]);
    } else {
        let e = enc(server_offset);
        assert_eq!(e.len(), 3);
        d.extend(e);
        d.push(0x10);
        d.extend([0xCC; 13]);
        d.extend(three(server_offset - 18));
    }
    d.extend([0x82, 0x03, 0x00, 1, 2, 3]);
    d.extend([0x82, 0x02, 0x00, 4, 5]);
    d.push(0x82);
    d.extend(three(payload as u32));
    d.extend(vec![fill; payload]);
    d.extend_from_slice(tail);
    let size = three((d.len() - 4) as u32);
    d[1..4].copy_from_slice(&size);
    d
}

#[test]
fn reads_three_byte_offset_variant() {
    let d = record(false, 20100, 20000, 0x5A, &[0x82, 0x05, 0x01]);
    let mut r = BWSaveGameClientDataReader::new(d.clone());
    r.read_char_data().unwrap();
    assert!(!r.server_offset_is_two_bytes);
    assert_eq!(r.server_offset, 20100);
    assert_eq!(r.char_data_offset, 43);
    assert_eq!(r.char_data_size, 20000);
    assert_eq!(r.char_data.len(), 20004);
    assert_eq!(r.char_data[..], d[43..43 + 20004]);
}

#[test]
fn reads_two_byte_offset_variant() {
    let d = record(true, 16000, 10, 0x11, &[0x82, 0x05, 0x01]);
    let mut r = BWSaveGameClientDataReader::new(d.clone());
    r.read_char_data().unwrap();
    assert!(r.server_offset_is_two_bytes);
    assert_eq!(r.server_offset, 16000);
    assert_eq!(r.char_data_offset, 41);
    assert_eq!(r.char_data_size, 10);
    assert_eq!(r.char_data[..], d[41..55]);
}

#[test]
fn bad_chunk_marker_is_rejected() {
    let mut d = record(false, 20100, 20000, 0x5A, &[0x82, 0x05, 0x01]);
    d[32] = 0x81;
    let mut r = BWSaveGameClientDataReader::new(d);
    assert!(matches!(r.read_char_data(), Err(SaveError::BadChunkMarker)));
}

#[test]
fn bad_sub_record_marker_is_rejected() {
    let mut d = record(false, 20100, 20000, 0x5A, &[0x82, 0x05, 0x01]);
    d[43] = 0x00;
    let mut r = BWSaveGameClientDataReader::new(d);
    assert!(matches!(r.read_char_data(), Err(SaveError::BadChunkMarker)));
}

#[test]
fn short_record_is_a_short_read() {
    let mut r = BWSaveGameClientDataReader::new(vec![0x82; 10]);
    assert!(matches!(r.read_char_data(), Err(SaveError::UnexpectedEof)));
    let mut d = record(false, 20100, 20000, 0x5A, &[]);
    d.truncate(43 + 100);
    let mut r = BWSaveGameClientDataReader::new(d);
    assert!(matches!(r.read_char_data(), Err(SaveError::UnexpectedEof)));
}

#[test]
fn splicing_own_sub_record_is_identity() {
    let d = record(false, 20100, 20000, 0x5A, &[0x82, 0x05, 0x01]);
    let mut r = BWSaveGameClientDataReader::new(d.clone());
    r.read_char_data().unwrap();
    let out = BWSaveGameWriter::splice_char_data(&r, &r.char_data).unwrap();
    assert_eq!(out, d);
}

#[test]
fn splice_into_two_byte_offset_record_widens_it() {
    let dest = record(true, 16000, 10, 0x11, &[0x82, 0x05, 0x01]);
    let src = record(false, 20100, 20000, 0x5A, &[0x82, 0x05, 0x01]);
    let mut dr = BWSaveGameClientDataReader::new(dest.clone());
    dr.read_char_data().unwrap();
    let mut sr = BWSaveGameClientDataReader::new(src);
    sr.read_char_data().unwrap();
    let out = BWSaveGameWriter::splice_char_data(&dr, &sr.char_data).unwrap();
    // 14 bytes of sub-record replaced by 20004, two zero bytes inserted.
    assert_eq!(out.len(), dest.len() - 14 + 20004 + 2);
    let server_offset: u32 = 16000 - 10 + 20004 - 4 + 1;
    assert_eq!(out[12..15], enc(server_offset)[..]);
    assert_eq!(out[29..32], enc(server_offset - 18)[..]);
    assert_eq!(out[1..4], enc((out.len() - 4) as u32)[..]);
    // What followed the old two-byte field moved on by one...
    assert_eq!(out[15], 0xBB);
    assert_eq!(out[16], 0x63);
    // ...and what followed position 29 by two.
    assert_eq!(out[32], 0x82);
    assert_eq!(out[41 + 2..41 + 2 + 20004], sr.char_data[..]);
    assert_eq!(out[out.len() - 3..], [0x82, 0x05, 0x01]);
}

#[test]
fn splice_into_three_byte_offset_record() {
    let dest = record(false, 20100, 20000, 0x5A, &[0x82, 0x05, 0x01]);
    let src = record(false, 30000, 25000, 0x33, &[0x82, 0x05, 0x01]);
    let mut dr = BWSaveGameClientDataReader::new(dest.clone());
    dr.read_char_data().unwrap();
    let mut sr = BWSaveGameClientDataReader::new(src);
    sr.read_char_data().unwrap();
    let out = BWSaveGameWriter::splice_char_data(&dr, &sr.char_data).unwrap();
    assert_eq!(out.len(), dest.len() + 5000);
    let server_offset: u32 = 20100 - 20000 + 25004 - 4;
    assert_eq!(out[12..15], enc(server_offset)[..]);
    assert_eq!(out[29..32], enc(server_offset - 18)[..]);
    assert_eq!(out[1..4], enc((out.len() - 4) as u32)[..]);
    assert_eq!(out[15], 0x10);
    assert_eq!(out[43..43 + 25004], sr.char_data[..]);
}

#[test]
fn splice_inserts_tail_alignment_byte() {
    let dest = record(false, 20100, 20000, 0x5A, &[0x82, 0x02, 0x07]);
    let mut dr = BWSaveGameClientDataReader::new(dest.clone());
    dr.read_char_data().unwrap();
    let own = dr.char_data.clone();
    let out = BWSaveGameWriter::splice_char_data(&dr, &own).unwrap();
    assert_eq!(out.len(), dest.len() + 1);
    assert_eq!(out[out.len() - 4..], [0x00, 0x82, 0x02, 0x07]);
    assert_eq!(out[12..15], enc(20101)[..]);
    assert_eq!(out[29..32], enc(20101 - 18)[..]);
    assert_eq!(out[1..4], enc((out.len() - 4) as u32)[..]);
}

#[test]
fn splice_out_of_range_offsets_fail() {
    // Offsets that no longer need three groups.
    let dest = record(false, 20100, 20000, 0x5A, &[0x82, 0x05, 0x01]);
    let mut dr = BWSaveGameClientDataReader::new(dest);
    dr.read_char_data().unwrap();
    assert!(matches!(
        BWSaveGameWriter::splice_char_data(&dr, &[0x82, 0x00, 0x00, 0x00]),
        Err(SaveError::OffsetOutOfRange)
    ));
    // No tail to inspect.
    let dest = record(false, 20100, 20000, 0x5A, &[0x82]);
    let mut dr = BWSaveGameClientDataReader::new(dest);
    dr.read_char_data().unwrap();
    let own = dr.char_data.clone();
    assert!(matches!(
        BWSaveGameWriter::splice_char_data(&dr, &own),
        Err(SaveError::OffsetOutOfRange)
    ));
}

#[test]
fn splice_own_sub_record_with_offset_below_its_size() {
    let d = record(false, 16500, 20000, 0x5A, &[0x82, 0x05, 0x01]);
    let mut r = BWSaveGameClientDataReader::new(d.clone());
    r.read_char_data().unwrap();
    let out = BWSaveGameWriter::splice_char_data(&r, &r.char_data).unwrap();
    assert_eq!(out, d);
}

#[test]
fn failed_read_keeps_earlier_results() {
    let d = record(true, 16000, 10, 0x11, &[0x82, 0x05, 0x01]);
    let mut r = BWSaveGameClientDataReader::new(d);
    r.read_char_data().unwrap();
    let before = (r.char_data.clone(), r.char_data_offset, r.char_data_size, r.server_offset);
    r.data[30] = 0x00;
    assert!(matches!(r.read_char_data(), Err(SaveError::BadChunkMarker)));
    assert_eq!((r.char_data.clone(), r.char_data_offset, r.char_data_size, r.server_offset), before);
    assert!(r.server_offset_is_two_bytes);
}

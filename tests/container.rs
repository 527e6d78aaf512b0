use std::io::Write;

use davsave::client_data::BWSaveGameClientDataReader;
use davsave::container::{BWSaveGameReader, Header};
use davsave::error::SaveError;
use davsave::writer::BWSaveGameWriter;
use flate2::write::GzEncoder;
use flate2::Compression;

fn gz(b: &[u8]) -> Vec<u8> {
    let mut e = GzEncoder::new(Vec::new(), Compression::default());
    e.write_all(b).unwrap();
    e.finish().unwrap()
}

fn container(version: u32, block_one: &[u8], block_two: &[u8]) -> Vec<u8> {
    let c1 = gz(block_one);
    let c2 = gz(block_two);
    let mut d = b"<!--DASC".to_vec();
    d.extend_from_slice(&version.to_le_bytes());
    d.extend_from_slice(&[0, 0, 0, 0]);
    d.extend_from_slice(&(block_two.len() as u64).to_le_bytes());
    d.extend_from_slice(&(c2.len() as u64).to_le_bytes());
    d.extend_from_slice(&(block_one.len() as u64).to_le_bytes());
    d.extend_from_slice(&(c1.len() as u64).to_le_bytes());
    d.extend_from_slice(&[0; 8]);
    d.extend_from_slice(&c1);
    d.extend_from_slice(&c2);
    d
}

#[test]
fn minimal_container_gives_back_both_blocks() {
    let d = container(1, b"block one plaintext", b"second block, also plain");
    let mut r = BWSaveGameReader::new(d);
    r.read_header().unwrap();
    assert_eq!(r.header.version, 1);
    assert_eq!(r.header._unk_001, [0; 4]);
    assert_eq!(r.header._unk_002, [0; 8]);
    assert_eq!(r.header.block_one_decomp_size, 19);
    assert_eq!(r.header.block_two_decomp_size, 24);
    assert_eq!(r.pos, 56);
    r.read_block_one_data().unwrap();
    r.read_block_two_data().unwrap();
    assert_eq!(r.block_one_data, b"block one plaintext".to_vec());
    assert_eq!(r.block_two_data, b"second block, also plain".to_vec());
}

#[test]
fn empty_blocks_read_back_empty() {
    let mut r = BWSaveGameReader::new(container(1, b"", b""));
    r.read_all().unwrap();
    assert!(r.block_one_data.is_empty());
    assert!(r.block_two_data.is_empty());
}

#[test]
fn bad_magic_is_rejected() {
    let mut d = container(1, b"a", b"b");
    d[3] = b'!';
    let mut r = BWSaveGameReader::new(d);
    assert!(matches!(r.read_header(), Err(SaveError::BadMagic)));
}

#[test]
fn short_container_is_a_short_read() {
    let mut r = BWSaveGameReader::new(b"<!--DA".to_vec());
    assert!(matches!(r.read_header(), Err(SaveError::UnexpectedEof)));
    let mut d = container(1, b"abc", b"def");
    d.truncate(60);
    let mut r = BWSaveGameReader::new(d);
    r.read_header().unwrap();
    assert!(matches!(r.read_block_one_data(), Err(SaveError::UnexpectedEof)));
}

#[test]
fn declared_size_larger_than_block_fails() {
    let mut d = container(1, b"abc", b"def");
    d[32..40].copy_from_slice(&10u64.to_le_bytes());
    let mut r = BWSaveGameReader::new(d);
    r.read_header().unwrap();
    assert!(matches!(r.read_block_one_data(), Err(SaveError::SizeMismatch)));
    assert!(r.block_one_data.is_empty());
}

#[test]
fn block_longer_than_declared_fails() {
    let mut d = container(1, b"abcdef", b"ghi");
    d[32..40].copy_from_slice(&2u64.to_le_bytes());
    let mut r = BWSaveGameReader::new(d);
    r.read_header().unwrap();
    assert!(matches!(r.read_block_one_data(), Err(SaveError::SizeMismatch)));
    assert!(r.block_one_data.is_empty());
}

#[test]
fn malformed_block_fails() {
    let mut d = container(1, b"abc", b"def");
    for b in &mut d[56..60] {
        *b = 0;
    }
    let mut r = BWSaveGameReader::new(d);
    r.read_header().unwrap();
    assert!(matches!(r.read_block_one_data(), Err(SaveError::Decompress)));
}

#[test]
fn bad_magic_leaves_header_default() {
    let mut d = container(7, b"a", b"b");
    d[0] = b'>';
    let mut r = BWSaveGameReader::new(d);
    assert!(r.read_header().is_err());
    assert_eq!(r.header.version, 0);
    assert_eq!(r.header.block_one_comp_size, 0);
    assert_eq!(r.header._unk_001, [0; 4]);
}

#[test]
fn written_container_reads_back() {
    let header = Header {
        version: 1,
        _unk_001: [1, 2, 3, 4],
        _unk_002: [5, 6, 7, 8, 9, 10, 11, 12],
        block_one_comp_size: 0,
        block_one_decomp_size: 5,
        block_two_comp_size: 0,
        block_two_decomp_size: 0,
    };
    let c1 = gz(b"hello");
    let c2 = gz(b"world!");
    let mut w = BWSaveGameWriter::new();
    w.write_container(&header, 6, &c1, &c2);
    assert_eq!(w.out.len(), 56 + c1.len() + c2.len());
    assert_eq!(w.out[..8], b"<!--DASC"[..]);
    assert_eq!(w.out[8..12], [2, 0, 0, 0]);
    assert_eq!(w.out[12..16], [1, 2, 3, 4]);
    assert_eq!(w.out[16..24], 6u64.to_le_bytes());
    assert_eq!(w.out[24..32], (c2.len() as u64).to_le_bytes());
    assert_eq!(w.out[32..40], 5u64.to_le_bytes());
    assert_eq!(w.out[40..48], (c1.len() as u64).to_le_bytes());
    assert_eq!(w.out[48..56], [5, 6, 7, 8, 9, 10, 11, 12]);
    let mut r = BWSaveGameReader::new(w.out.clone());
    r.read_all().unwrap();
    assert_eq!(r.header.version, 2);
    assert_eq!(r.header._unk_001, [1, 2, 3, 4]);
    assert_eq!(r.block_one_data, b"hello".to_vec());
    assert_eq!(r.block_two_data, b"world!".to_vec());
}

fn enc(v: u32) -> Vec<u8> {
    BWSaveGameWriter::shift_chunk_size(v)
}

fn three(v: u32) -> Vec<u8> {
    let mut e = enc(v);
    while e.len() < 3 {
        let last = e.len() - 1;
        e[last] |= 0x80;
        e.push(0x00);
    }
    e
}

fn client_record(server_offset: u32, payload: usize, fill: u8) -> Vec<u8> {
    let mut d: Vec<u8> = vec![0x82, 0, 0, 0];
    d.extend([0xAA; 8]);
    d.extend(enc(server_offset));
    d.push(0x10);
    d.extend([0xCC; 13]);
    d.extend(three(server_offset - 18));
    d.extend([0x82, 0x03, 0x00, 1, 2, 3]);
    d.extend([0x82, 0x02, 0x00, 4, 5]);
    d.push(0x82);
    d.extend(three(payload as u32));
    d.extend(vec![fill; payload]);
    d.extend([0x82, 0x05, 0x01]);
    let size = three((d.len() - 4) as u32);
    d[1..4].copy_from_slice(&size);
    d
}

#[test]
fn rebuild_transplants_appearance() {
    let meta = vec![1, 2, 3, 0, 0];
    let dest_two = client_record(20100, 20000, 0x5A);
    let src_two = client_record(30000, 25000, 0x33);
    let dest = container(1, &meta, &dest_two);
    let mut w = BWSaveGameWriter::new();
    w.rebuild(dest, src_two.clone()).unwrap();
    let mut r = BWSaveGameReader::new(w.out.clone());
    r.read_all().unwrap();
    assert_eq!(r.header.version, 2);
    assert_eq!(r.block_one_data, meta);
    let mut dr = BWSaveGameClientDataReader::new(dest_two);
    dr.read_char_data().unwrap();
    let mut sr = BWSaveGameClientDataReader::new(src_two);
    sr.read_char_data().unwrap();
    let expected = BWSaveGameWriter::splice_char_data(&dr, &sr.char_data).unwrap();
    assert_eq!(r.block_two_data, expected);
    let mut check = BWSaveGameClientDataReader::new(r.block_two_data.clone());
    check.read_char_data().unwrap();
    assert_eq!(check.char_data, sr.char_data);
}

#[test]
fn rebuild_reports_bad_source() {
    let dest = container(1, &[1, 2, 3], &client_record(20100, 20000, 0x5A));
    let mut w = BWSaveGameWriter::new();
    assert!(matches!(w.rebuild(dest, vec![0; 8]), Err(SaveError::UnexpectedEof)));
    assert!(w.out.is_empty());
}

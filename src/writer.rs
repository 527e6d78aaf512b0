//! Transplanting an appearance sub-record into another save's block two,
//! and writing the resulting container.

use vstd::prelude::*;
use crate::client_data::{
    BWSaveGameClientDataReader, CharDataView, char_data_of, lemma_char_data_bounds,
    SERVER_OFFSET_POS,
};
use crate::container::{
    BWSaveGameReader, Header, HeaderView, blocks_of, container_bytes, le_bytes_of, magic_bytes,
    lemma_container_round_trip,
};
use crate::error::{ErrorView, SaveError};
use crate::trusted::{gzip, gzipped};
use crate::varsize::{shifted, lemma_varsize_round_trip};

verus! {

/// Start of the size field of the whole record, which counts every byte
/// after its first four.
pub const RECORD_SIZE_POS: usize = 1;

/// Start of the second offset field, which counts from `CONTRIB_OFFSET_BASE`
/// bytes further on than the server offset does.
pub const CONTRIB_OFFSET_POS: usize = 29;

pub const CONTRIB_OFFSET_BASE: u64 = 18;

/// A tail whose second byte is this expects one more byte before it.
pub const TAIL_SENTINEL: u8 = 0x02;

/// Width of each size and offset field that a splice rewrites.
pub const PATCHED_FIELD_LEN: usize = 3;

/// `s` with the bytes from `at` on replaced by `b`.
pub open spec fn patched(s: Seq<u8>, at: int, b: Seq<u8>) -> Seq<u8> {
    s.subrange(0, at) + b + s.subrange(at + b.len(), s.len() as int)
}

/// `v` is written in exactly three groups.
pub open spec fn fits_three_groups(v: int) -> bool {
    0x4000 <= v < 0x20_0000
}

/// The bytes of `d` that follow the appearance sub-record `v`.
pub open spec fn tail_of(d: Seq<u8>, v: CharDataView) -> Seq<u8> {
    d.subrange((v.offset + v.size + 4) as int, d.len() as int)
}

pub open spec fn tail_byte_needed(d: Seq<u8>, v: CharDataView) -> bool {
    tail_of(d, v)[1] == TAIL_SENTINEL
}

/// Head of `d`, the new sub-record `c`, and the tail of `d`, with one zero
/// byte before the tail where the tail expects it.
pub open spec fn joined(d: Seq<u8>, v: CharDataView, c: Seq<u8>) -> Seq<u8> {
    d.subrange(0, v.offset as int) + c + if tail_byte_needed(d, v) {
        seq![0u8] + tail_of(d, v)
    } else {
        tail_of(d, v)
    }
}

/// The joined bytes, with the two zero bytes that a two-byte server offset
/// field needs to become three bytes wide.
pub open spec fn widened(d: Seq<u8>, v: CharDataView, c: Seq<u8>) -> Seq<u8> {
    if v.server_offset_is_two_bytes {
        joined(d, v, c).insert(SERVER_OFFSET_POS as int, 0u8).insert(CONTRIB_OFFSET_POS as int, 0u8)
    } else {
        joined(d, v, c)
    }
}

/// The server offset after the splice.
pub open spec fn new_server_offset(d: Seq<u8>, v: CharDataView, c: Seq<u8>) -> int {
    v.server_offset - v.size + c.len() - 4 + (if tail_byte_needed(d, v) { 1int } else { 0int })
        + (if v.server_offset_is_two_bytes { 1int } else { 0int })
}

/// The record size after the splice.
pub open spec fn new_record_size(d: Seq<u8>, v: CharDataView, c: Seq<u8>) -> int {
    widened(d, v, c).len() - 4
}

/// Block two `d`, whose appearance sub-record is `v`, with the sub-record `c`
/// in its place and every size and offset field after it rewritten.
pub open spec fn spliced(d: Seq<u8>, v: CharDataView, c: Seq<u8>) -> Result<Seq<u8>, ErrorView> {
    if tail_of(d, v).len() < 2 || widened(d, v, c).len() < 32 || new_server_offset(d, v, c) < CONTRIB_OFFSET_BASE
        || !fits_three_groups(new_server_offset(d, v, c)) || !fits_three_groups(
        new_server_offset(d, v, c) - CONTRIB_OFFSET_BASE,
    ) || !fits_three_groups(new_record_size(d, v, c)) {
        Err(ErrorView::OffsetOutOfRange)
    } else {
        let so = new_server_offset(d, v, c) as nat;
        Ok(
            patched(
                patched(
                    patched(
                        widened(d, v, c),
                        RECORD_SIZE_POS as int,
                        shifted(new_record_size(d, v, c) as nat),
                    ),
                    SERVER_OFFSET_POS as int,
                    shifted(so),
                ),
                CONTRIB_OFFSET_POS as int,
                shifted((so - CONTRIB_OFFSET_BASE) as nat),
            ),
        )
    }
}

/// Splicing a record's own appearance sub-record back into it gives the
/// record back unchanged, when the record needs neither the alignment byte
/// nor the widening of a two-byte server offset, and its three size and
/// offset fields already hold the canonical three-byte encodings of the record size, the server
/// offset and the server offset less 18.
pub proof fn lemma_splice_own_char_data_is_identity(d: Seq<u8>)
    requires
        char_data_of(d) is Ok,
        !char_data_of(d)->Ok_0.server_offset_is_two_bytes,
        tail_of(d, char_data_of(d)->Ok_0).len() >= 2,
        !tail_byte_needed(d, char_data_of(d)->Ok_0),
        char_data_of(d)->Ok_0.server_offset >= CONTRIB_OFFSET_BASE,
        fits_three_groups(d.len() - 4),
        fits_three_groups(char_data_of(d)->Ok_0.server_offset as int),
        fits_three_groups(char_data_of(d)->Ok_0.server_offset - CONTRIB_OFFSET_BASE),
        d.subrange(1, 4) == shifted((d.len() - 4) as nat),
        d.subrange(12, 15) == shifted(char_data_of(d)->Ok_0.server_offset),
        d.subrange(29, 32) == shifted(
            (char_data_of(d)->Ok_0.server_offset - CONTRIB_OFFSET_BASE) as nat,
        ),
    ensures
        spliced(d, char_data_of(d)->Ok_0, char_data_of(d)->Ok_0.bytes) == Ok::<
            Seq<u8>,
            ErrorView,
        >(d),
{
    let v = char_data_of(d)->Ok_0;
    lemma_char_data_bounds(d);
    let c = v.bytes;
    assert(joined(d, v, c) =~= d);
    assert(widened(d, v, c) == d);
    assert(new_server_offset(d, v, c) == v.server_offset);
    let so = v.server_offset;
    lemma_varsize_round_trip((d.len() - 4) as nat);
    lemma_varsize_round_trip(so);
    lemma_varsize_round_trip((so - CONTRIB_OFFSET_BASE) as nat);
    let p1 = patched(d, 1, shifted((d.len() - 4) as nat));
    assert(p1 =~= d);
    let p2 = patched(p1, 12, shifted(so));
    assert(p2 =~= d);
    let p3 = patched(p2, 29, shifted((so - CONTRIB_OFFSET_BASE) as nat));
    assert(p3 =~= d);
}

/// Version that a rewritten container declares.
pub const WRITTEN_VERSION: u32 = 2;

/// What a rewrite of the container `dest` with the appearance of block two
/// `src` keeps: the header of `dest`, its block one, and the spliced block two.
pub open spec fn rebuilt_blocks(dest: Seq<u8>, src: Seq<u8>) -> Result<
    (HeaderView, Seq<u8>, Seq<u8>),
    ErrorView,
> {
    match char_data_of(src) {
        Err(e) => Err(e),
        Ok(sv) => match blocks_of(dest) {
            Err(e) => Err(e),
            Ok((h, b1, b2)) => match char_data_of(b2) {
                Err(e) => Err(e),
                Ok(dv) => match spliced(b2, dv, sv.bytes) {
                    Err(e) => Err(e),
                    Ok(b2n) => Ok((h, b1, b2n)),
                },
            },
        },
    }
}

/// The container that holds the compressed blocks `comp_one` and `comp_two`,
/// block two inflating to `block_two_len` bytes, under the reserved header
/// fields and the inflated size of block one of `h`.
pub open spec fn rebuilt_container(h: HeaderView, block_two_len: nat, comp_one: Seq<u8>, comp_two: Seq<u8>) -> Seq<u8> {
    container_bytes(
        WRITTEN_VERSION as nat,
        h.unk_001,
        block_two_len,
        h.block_one_decomp_size,
        h.unk_002,
        comp_one,
        comp_two,
    )
}

/// The header that a rewritten container declares.
pub open spec fn rebuilt_header(h: HeaderView, b2: Seq<u8>, comp_one: Seq<u8>, comp_two: Seq<u8>) -> HeaderView {
    HeaderView {
        version: WRITTEN_VERSION as nat,
        unk_001: h.unk_001,
        block_two_decomp_size: b2.len(),
        block_two_comp_size: comp_two.len(),
        block_one_decomp_size: h.block_one_decomp_size,
        block_one_comp_size: comp_one.len(),
        unk_002: h.unk_002,
    }
}

/// A container under construction: the bytes written so far.
pub struct BWSaveGameWriter {
    pub out: Vec<u8>,
}

/// Overwrites `buf` from `at` on with `bytes`.
fn patch(buf: &mut Vec<u8>, at: usize, bytes: &[u8])
    requires
        at + bytes@.len() <= old(buf)@.len(),
    ensures
        final(buf)@ == patched(old(buf)@, at as int, bytes@),
{
    let ghost orig = buf@;
    let n = buf.len();
    let mut i: usize = 0;
    while i < bytes.len()
        invariant
            at + bytes@.len() <= orig.len(),
            n == orig.len(),
            buf@.len() == orig.len(),
            i <= bytes@.len(),
            forall|j: int|
                0 <= j < orig.len() ==> buf@[j] == if at <= j < at + i {
                    bytes@[j - at]
                } else {
                    orig[j]
                },
        decreases bytes@.len() - i,
    {
        buf.set(at + i, bytes[i]);
        i = i + 1;
    }
    assert(buf@ =~= patched(orig, at as int, bytes@));
}

impl BWSaveGameWriter {
    pub fn new() -> (r: Self)
        ensures
            r.out@.len() == 0,
    {
        BWSaveGameWriter { out: Vec::new() }
    }

    /// The canonical group encoding of `size`.
    pub fn shift_chunk_size(size: u32) -> (r: Vec<u8>)
        ensures
            r@ == shifted(size as nat),
    {
        let mut bytes: Vec<u8> = Vec::new();
        let mut value = size;
        while value >= 0x80
            invariant
                bytes@ + shifted(value as nat) == shifted(size as nat),
            decreases value,
        {
            let low = (value & 0x7F) as u8;
            assert(value & 0x7F == value % 128) by (bit_vector);
            assert(value >> 7 == value / 128) by (bit_vector);
            assert(low < 128 ==> low | 0x80 == low + 128) by (bit_vector);
            proof {
                assert(bytes@ + seq![(low + 128) as u8] + shifted((value / 128) as nat) =~= bytes@
                    + shifted(value as nat));
            }
            bytes.push(low | 0x80);
            value = value >> 7;
        }
        proof {
            assert(bytes@ + seq![value as u8] =~= bytes@ + shifted(value as nat));
        }
        bytes.push(value as u8);
        bytes
    }

    /// Block two of `dest` with the appearance sub-record `src_char_data` in
    /// place of its own, every size and offset field after it rewritten.
    pub fn splice_char_data(dest: &BWSaveGameClientDataReader, src_char_data: &[u8]) -> (r: Result<
        Vec<u8>,
        SaveError,
    >)
        requires
            char_data_of(dest.data@) is Ok,
            dest.holds(char_data_of(dest.data@)->Ok_0),
        ensures
            match spliced(dest.data@, char_data_of(dest.data@)->Ok_0, src_char_data@) {
                Ok(s) => r is Ok && r->Ok_0@ == s,
                Err(e) => r is Err && r->Err_0@ == e,
            },
    {
        let ghost v = char_data_of(dest.data@)->Ok_0;
        let ghost d = dest.data@;
        let ghost c = src_char_data@;
        proof {
            lemma_char_data_bounds(d);
        }
        let dlen = dest.data.len();
        assert(v.offset + v.size + 4 <= dlen);
        let off = dest.char_data_offset as usize;
        let end = off + dest.char_data_size as usize + 4;
        let head = vstd::slice::slice_subrange(dest.data.as_slice(), 0, off);
        let tail = vstd::slice::slice_subrange(dest.data.as_slice(), end, dest.data.len());
        if tail.len() < 2 {
            return Err(SaveError::OffsetOutOfRange);
        }
        let tail_byte_needed = tail[1] == TAIL_SENTINEL;
        let mut final_data: Vec<u8> = Vec::new();
        final_data.extend_from_slice(head);
        final_data.extend_from_slice(src_char_data);
        if tail_byte_needed {
            final_data.push(0);
        }
        final_data.extend_from_slice(tail);
        proof {
            assert(tail@ == tail_of(d, v));
            if tail_byte_needed {
                assert(final_data@ =~= joined(d, v, c));
            } else {
                assert(final_data@ =~= joined(d, v, c));
            }
        }
        // The new server offset is the old one, less the old sub-record, plus
        // the new one (each with its four marker and size bytes), plus the
        // bytes inserted before the tail and into the header.
        if src_char_data.len() >= 0x4000_0000 {
            return Err(SaveError::OffsetOutOfRange);
        }
        let mut grown = dest.server_offset as u64 + src_char_data.len() as u64;
        if tail_byte_needed {
            grown = grown + 1;
        }
        if dest.server_offset_is_two_bytes {
            grown = grown + 1;
        }
        let removed = dest.char_data_size as u64 + 4;
        if grown < removed + CONTRIB_OFFSET_BASE {
            return Err(SaveError::OffsetOutOfRange);
        }
        let server_offset = grown - removed;
        let two = dest.server_offset_is_two_bytes;
        let joined_len = final_data.len();
        if (two && joined_len < 30) || (!two && joined_len < 32) {
            return Err(SaveError::OffsetOutOfRange);
        }
        if two {
            final_data.insert(SERVER_OFFSET_POS, 0);
            final_data.insert(CONTRIB_OFFSET_POS, 0);
        }
        assert(final_data@ == widened(d, v, c));
        let final_size = final_data.len() - 4;
        let contrib_offset = server_offset - CONTRIB_OFFSET_BASE;
        if !(0x4000 <= server_offset && server_offset < 0x20_0000) || !(0x4000 <= contrib_offset
            && contrib_offset < 0x20_0000) || !(0x4000 <= final_size && final_size < 0x20_0000) {
            return Err(SaveError::OffsetOutOfRange);
        }
        let size_bytes = Self::shift_chunk_size(final_size as u32);
        let server_offset_bytes = Self::shift_chunk_size(server_offset as u32);
        let contrib_bytes = Self::shift_chunk_size(contrib_offset as u32);
        proof {
            lemma_varsize_round_trip(final_size as nat);
            lemma_varsize_round_trip(server_offset as nat);
            lemma_varsize_round_trip(contrib_offset as nat);
        }
        patch(&mut final_data, RECORD_SIZE_POS, size_bytes.as_slice());
        patch(&mut final_data, SERVER_OFFSET_POS, server_offset_bytes.as_slice());
        patch(&mut final_data, CONTRIB_OFFSET_POS, contrib_bytes.as_slice());
        Ok(final_data)
    }

    /// Appends a container of version 2 that holds the compressed blocks
    /// `comp_one` and `comp_two`, with the reserved fields and the inflated
    /// size of block one taken from `header`.
    pub fn write_container(
        &mut self,
        header: &Header,
        block_two_decomp_size: u64,
        comp_one: &[u8],
        comp_two: &[u8],
    )
        ensures
            final(self).out@ == old(self).out@ + container_bytes(
                WRITTEN_VERSION as nat,
                header._unk_001@,
                block_two_decomp_size as nat,
                header.block_one_decomp_size as nat,
                header._unk_002@,
                comp_one@,
                comp_two@,
            ),
    {
        let ghost before = self.out@;
        self.out.extend_from_slice(magic_bytes().as_slice());
        self.out.extend_from_slice(le_bytes_of(WRITTEN_VERSION as u64, 4).as_slice());
        self.out.extend_from_slice(&header._unk_001);
        self.out.extend_from_slice(le_bytes_of(block_two_decomp_size, 8).as_slice());
        self.out.extend_from_slice(le_bytes_of(comp_two.len() as u64, 8).as_slice());
        self.out.extend_from_slice(le_bytes_of(header.block_one_decomp_size, 8).as_slice());
        self.out.extend_from_slice(le_bytes_of(comp_one.len() as u64, 8).as_slice());
        self.out.extend_from_slice(&header._unk_002);
        self.out.extend_from_slice(comp_one);
        self.out.extend_from_slice(comp_two);
        assert(self.out@ =~= before + container_bytes(
            WRITTEN_VERSION as nat,
            header._unk_001@,
            block_two_decomp_size as nat,
            header.block_one_decomp_size as nat,
            header._unk_002@,
            comp_one@,
            comp_two@,
        ));
    }

    /// Rewrites the container `dest_save` with the appearance sub-record of
    /// the client-data record `src_block_two_data`, and appends the new
    /// container to what was written. It succeeds exactly when both records
    /// can be read, the splice fits, and both blocks can be compressed; the
    /// container written then reads back to block one and the spliced block
    /// two. On failure nothing is written.
    pub fn rebuild(&mut self, dest_save: Vec<u8>, src_block_two_data: Vec<u8>) -> (r: Result<
        (),
        SaveError,
    >)
        ensures
            r is Err ==> final(self).out == old(self).out,
            match rebuilt_blocks(dest_save@, src_block_two_data@) {
                Ok((h, b1, b2)) => {
                    &&& r is Ok <==> (gzipped(b1) is Some && gzipped(b2) is Some)
                    &&& r is Ok ==> final(self).out@ == old(self).out@ + rebuilt_container(
                        h,
                        b2.len(),
                        gzipped(b1)->Some_0,
                        gzipped(b2)->Some_0,
                    )
                    &&& r is Ok ==> blocks_of(
                        rebuilt_container(h, b2.len(), gzipped(b1)->Some_0, gzipped(b2)->Some_0),
                    ) == Ok::<(HeaderView, Seq<u8>, Seq<u8>), ErrorView>(
                        (rebuilt_header(h, b2, gzipped(b1)->Some_0, gzipped(b2)->Some_0), b1, b2),
                    )
                    &&& r is Err ==> r->Err_0@ == ErrorView::Compress
                },
                Err(e) => r is Err && r->Err_0@ == e,
            },
    {
        let mut src_data_r = BWSaveGameClientDataReader::new(src_block_two_data);
        src_data_r.read_char_data()?;
        let mut dest_r = BWSaveGameReader::new(dest_save);
        dest_r.read_all()?;
        let mut dest_data_r = BWSaveGameClientDataReader::new(dest_r.block_two_data.clone());
        dest_data_r.read_char_data()?;
        let final_data = Self::splice_char_data(&dest_data_r, src_data_r.char_data.as_slice())?;
        let block_one_comp_data = match gzip(dest_r.block_one_data.as_slice()) {
            Some(c) => c,
            None => return Err(SaveError::Compress),
        };
        let block_two_comp_data = match gzip(final_data.as_slice()) {
            Some(c) => c,
            None => return Err(SaveError::Compress),
        };
        let n1 = dest_r.block_one_data.len();
        let n2 = final_data.len();
        let c1 = block_one_comp_data.len();
        let c2 = block_two_comp_data.len();
        proof {
            let h = rebuilt_blocks(dest_save@, src_block_two_data@)->Ok_0.0;
            lemma_container_round_trip(
                WRITTEN_VERSION as nat,
                h.unk_001,
                h.unk_002,
                dest_r.block_one_data@,
                final_data@,
                block_one_comp_data@,
                block_two_comp_data@,
            );
        }
        self.write_container(
            &dest_r.header,
            final_data.len() as u64,
            block_one_comp_data.as_slice(),
            block_two_comp_data.as_slice(),
        );
        Ok(())
    }
}

} // verus!

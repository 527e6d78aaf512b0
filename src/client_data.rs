//! The client-data record of block two and the character appearance
//! sub-record inside it.

use vstd::prelude::*;
use crate::error::{ErrorView, SaveError};
use crate::varsize::{unshifted, lemma_unshifted_step, lemma_unshifted_bound, lemma_pow128_bound, pow128};

verus! {

/// Start of the server offset field.
pub const SERVER_OFFSET_POS: usize = 12;

/// Byte that follows a two-byte server offset field (at `SERVER_OFFSET_POS + 3`).
pub const TWO_BYTE_OFFSET_SENTINEL: u8 = 0x63;

/// Marker byte that opens every chunk.
pub const CHUNK_MARKER: u8 = 0x82;

/// Where the appearance sub-record was found in a client-data record, and
/// the header fields that a splice has to rewrite.
pub ghost struct CharDataView {
    /// The sub-record, its marker and size bytes included.
    pub bytes: Seq<u8>,
    pub offset: nat,
    /// Declared size, without the four marker and size bytes.
    pub size: nat,
    pub server_offset: nat,
    pub server_offset_is_two_bytes: bool,
}

/// The server offset field is two bytes wide when the sentinel follows it.
pub open spec fn two_byte_offset(d: Seq<u8>) -> bool {
    d[15] == TWO_BYTE_OFFSET_SENTINEL
}

pub open spec fn server_offset_of(d: Seq<u8>) -> nat {
    if two_byte_offset(d) {
        unshifted(d.subrange(12, 14))
    } else {
        unshifted(d.subrange(12, 15))
    }
}

/// Where the first of the two outer chunks starts.
pub open spec fn first_chunk_pos(d: Seq<u8>) -> int {
    if two_byte_offset(d) {
        30
    } else {
        32
    }
}

/// The position just after the chunk that starts at `p`: its marker, its
/// two-byte size and its contents. Ends past the data read as a short read.
pub open spec fn skip_chunk(d: Seq<u8>, p: int) -> Result<int, ErrorView> {
    if p >= d.len() {
        Err(ErrorView::UnexpectedEof)
    } else if d[p] != CHUNK_MARKER {
        Err(ErrorView::BadChunkMarker)
    } else if p + 3 > d.len() {
        Err(ErrorView::UnexpectedEof)
    } else if p + 3 + unshifted(d.subrange(p + 1, p + 3)) > d.len() {
        Err(ErrorView::UnexpectedEof)
    } else {
        Ok(p + 3 + unshifted(d.subrange(p + 1, p + 3)))
    }
}

/// The position after the two outer chunks that start at `p`.
pub open spec fn skip_two_chunks(d: Seq<u8>, p: int) -> Result<int, ErrorView> {
    match skip_chunk(d, p) {
        Ok(q) => skip_chunk(d, q),
        Err(e) => Err(e),
    }
}

/// Where the appearance sub-record starts: after the two outer chunks.
pub open spec fn char_data_offset_of(d: Seq<u8>) -> Result<int, ErrorView> {
    skip_two_chunks(d, first_chunk_pos(d))
}

/// What `read_char_data` finds in the client-data record `d`.
pub open spec fn char_data_of(d: Seq<u8>) -> Result<CharDataView, ErrorView> {
    if d.len() < 16 {
        Err(ErrorView::UnexpectedEof)
    } else {
        match char_data_offset_of(d) {
            Err(e) => Err(e),
            Ok(off) => {
                if off >= d.len() {
                    Err(ErrorView::UnexpectedEof)
                } else if d[off] != CHUNK_MARKER {
                    Err(ErrorView::BadChunkMarker)
                } else if off + 4 > d.len() {
                    Err(ErrorView::UnexpectedEof)
                } else {
                    let size = unshifted(d.subrange(off + 1, off + 4));
                    if off + size + 4 > d.len() {
                        Err(ErrorView::UnexpectedEof)
                    } else {
                        Ok(
                            CharDataView {
                                bytes: d.subrange(off, off + size + 4),
                                offset: off as nat,
                                size,
                                server_offset: server_offset_of(d),
                                server_offset_is_two_bytes: two_byte_offset(d),
                            },
                        )
                    }
                }
            },
        }
    }
}

/// Cursor over a client-data record, and what `read_char_data` found in it.
pub struct BWSaveGameClientDataReader {
    pub data: Vec<u8>,
    pub pos: usize,
    pub char_data: Vec<u8>,
    pub char_data_offset: u64,
    pub char_data_size: u32,
    pub server_offset: u32,
    pub server_offset_is_two_bytes: bool,
}

/// Where a found sub-record lies in its record.
pub proof fn lemma_char_data_bounds(d: Seq<u8>)
    requires
        char_data_of(d) is Ok,
    ensures
        ({
            let v = char_data_of(d)->Ok_0;
            &&& v.offset + v.size + 4 <= d.len()
            &&& v.bytes == d.subrange(v.offset as int, (v.offset + v.size + 4) as int)
            &&& v.offset >= 30
            &&& v.size < 0x20_0000
        }),
{
    let p = first_chunk_pos(d);
    let q = skip_chunk(d, p)->Ok_0;
    assert(q > p);
    let off = char_data_of(d)->Ok_0.offset as int;
    lemma_unshifted_bound(d.subrange(off + 1, off + 4));
    lemma_pow128_bound(2);
}

impl BWSaveGameClientDataReader {
    /// The results of `read_char_data` are those of `o`.
    pub open spec fn results_unchanged(&self, o: &Self) -> bool {
        &&& self.char_data == o.char_data
        &&& self.char_data_offset == o.char_data_offset
        &&& self.char_data_size == o.char_data_size
        &&& self.server_offset == o.server_offset
        &&& self.server_offset_is_two_bytes == o.server_offset_is_two_bytes
    }

    /// What `read_char_data` stored matches `v`.
    pub open spec fn holds(&self, v: CharDataView) -> bool {
        &&& self.char_data@ == v.bytes
        &&& self.char_data_offset == v.offset
        &&& self.char_data_size == v.size
        &&& self.server_offset == v.server_offset
        &&& self.server_offset_is_two_bytes == v.server_offset_is_two_bytes
    }

    pub fn new(data: Vec<u8>) -> (r: Self)
        ensures
            r.data == data,
            r.pos == 0,
            r.char_data@.len() == 0,
            r.char_data_offset == 0,
            r.char_data_size == 0,
            r.server_offset == 0,
            !r.server_offset_is_two_bytes,
    {
        BWSaveGameClientDataReader {
            data,
            pos: 0,
            char_data: Vec::new(),
            char_data_offset: 0,
            char_data_size: 0,
            server_offset: 0,
            server_offset_is_two_bytes: false,
        }
    }

    pub fn read_u8(&mut self) -> (r: Result<u8, SaveError>)
        ensures
            final(self).data == old(self).data,
            final(self).results_unchanged(&*old(self)),
            old(self).pos < old(self).data@.len() ==> r == Ok::<u8, SaveError>(
                old(self).data@[old(self).pos as int],
            ) && final(self).pos == old(self).pos + 1,
            old(self).pos >= old(self).data@.len() ==> r is Err && r->Err_0@
                == ErrorView::UnexpectedEof,
    {
        if self.pos >= self.data.len() {
            return Err(SaveError::UnexpectedEof);
        }
        let b = self.data[self.pos];
        self.pos = self.pos + 1;
        Ok(b)
    }

    pub fn read_bytes(&mut self, count: usize) -> (r: Result<Vec<u8>, SaveError>)
        ensures
            final(self).data == old(self).data,
            final(self).results_unchanged(&*old(self)),
            old(self).pos + count <= old(self).data@.len() ==> r is Ok && r->Ok_0@
                == old(self).data@.subrange(old(self).pos as int, old(self).pos + count)
                && final(self).pos == old(self).pos + count,
            old(self).pos + count > old(self).data@.len() ==> r is Err && r->Err_0@
                == ErrorView::UnexpectedEof,
    {
        if self.pos > self.data.len() || count > self.data.len() - self.pos {
            return Err(SaveError::UnexpectedEof);
        }
        let end = self.pos + count;
        let out = vstd::slice::slice_to_vec(vstd::slice::slice_subrange(self.data.as_slice(), self.pos, end));
        self.pos = end;
        Ok(out)
    }

    fn skip_chunk(&mut self) -> (r: Result<(), SaveError>)
        ensures
            final(self).data == old(self).data,
            final(self).results_unchanged(&*old(self)),
            match skip_chunk(old(self).data@, old(self).pos as int) {
                Ok(q) => r is Ok && final(self).pos == q,
                Err(e) => r is Err && r->Err_0@ == e,
            },
    {
        let marker = self.read_u8()?;
        if marker != CHUNK_MARKER {
            return Err(SaveError::BadChunkMarker);
        }
        let shifted_size = self.read_bytes(2)?;
        let size = Self::unshift_size(shifted_size.as_slice());
        if size as usize > self.data.len() - self.pos {
            return Err(SaveError::UnexpectedEof);
        }
        self.pos = self.pos + size as usize;
        Ok(())
    }

    /// Moves the cursor over the two outer chunks that start at it.
    pub fn seek_to_char_data(&mut self) -> (r: Result<(), SaveError>)
        ensures
            final(self).data == old(self).data,
            final(self).results_unchanged(&*old(self)),
            match skip_two_chunks(old(self).data@, old(self).pos as int) {
                Ok(q) => r is Ok && final(self).pos == q,
                Err(e) => r is Err && r->Err_0@ == e,
            },
    {
        self.skip_chunk()?;
        self.skip_chunk()
    }

    /// Locates the appearance sub-record and records it with the server
    /// offset field and its width.
    pub fn read_char_data(&mut self) -> (r: Result<(), SaveError>)
        ensures
            final(self).data == old(self).data,
            r is Err ==> final(self).results_unchanged(&*old(self)),
            match char_data_of(old(self).data@) {
                Ok(v) => r is Ok && final(self).holds(v),
                Err(e) => r is Err && r->Err_0@ == e,
            },
    {
        let ghost d = self.data@;
        self.pos = SERVER_OFFSET_POS;
        let arr = self.read_bytes(4)?;
        let is_two_bytes = arr[3] == TWO_BYTE_OFFSET_SENTINEL;
        let server_offset_len: usize = if is_two_bytes { 2 } else { 3 };
        let server_offset = Self::unshift_size(
            vstd::slice::slice_subrange(arr.as_slice(), 0, server_offset_len),
        );
        proof {
            assert(arr@.subrange(0, server_offset_len as int) =~= d.subrange(12, 12 + server_offset_len));
        }
        // Fields that follow the server offset; a three-byte offset shifts them by two.
        self.pos = self.pos + 14;
        if !is_two_bytes {
            self.pos = self.pos + 2;
        }
        self.seek_to_char_data()?;
        let char_data_offset = self.pos;
        let marker = self.read_u8()?;
        if marker != CHUNK_MARKER {
            return Err(SaveError::BadChunkMarker);
        }
        let shifted_size = self.read_bytes(3)?;
        let size = Self::unshift_size(shifted_size.as_slice());
        proof {
            lemma_unshifted_bound(shifted_size@);
            lemma_pow128_bound(2);
        }
        self.pos = char_data_offset;
        let char_data = self.read_bytes(size as usize + 4)?;
        self.char_data = char_data;
        self.char_data_offset = char_data_offset as u64;
        self.char_data_size = size;
        self.server_offset = server_offset;
        self.server_offset_is_two_bytes = is_two_bytes;
        Ok(())
    }

    /// Decodes a group sequence of at most four bytes.
    pub fn unshift_size(bytes: &[u8]) -> (r: u32)
        requires
            bytes@.len() <= 4,
        ensures
            r == unshifted(bytes@),
    {
        let ghost s = bytes@;
        let mut size: u32 = 0;
        let mut mult: u32 = 1;
        let mut i: usize = 0;
        proof {
            assert(s.subrange(0, s.len() as int) =~= s);
        }
        while i < bytes.len()
            invariant
                s == bytes@,
                s.len() <= 4,
                0 <= i <= s.len(),
                mult == pow128(i as nat),
                size < mult,
                unshifted(s) == size + mult * unshifted(s.subrange(i as int, s.len() as int)),
            decreases s.len() - i,
        {
            let byte = bytes[i];
            let low = byte & 0x7F;
            assert(byte & 0x7F == byte % 128) by (bit_vector);
            assert(byte & 0x80 == 0 <==> byte < 128) by (bit_vector);
            proof {
                lemma_unshifted_step(s, i as int);
                lemma_pow128_bound(i as nat);
            }
            let ghost rest = unshifted(s.subrange(i as int + 1, s.len() as int));
            if byte & 0x80 == 0 {
                proof {
                    assert(size + (low as int) * mult < 128 * mult) by (nonlinear_arith)
                        requires size < mult, low < 128;
                    assert((low as int) * mult == mult * (low as int)) by (nonlinear_arith);
                }
                size = size + (low as u32) * mult;
                return size;
            }
            proof {
                assert(size + (low as int) * mult < 128 * mult) by (nonlinear_arith)
                    requires size < mult, low < 128;
                assert((low as int) * mult == mult * (low as int)) by (nonlinear_arith);
                assert(mult * ((low as int) + 128 * rest) == mult * (low as int) + (128 * mult) * rest)
                    by (nonlinear_arith);
            }
            size = size + (low as u32) * mult;
            mult = mult * 128;
            i = i + 1;
        }
        proof {
            assert(s.subrange(i as int, s.len() as int) =~= Seq::<u8>::empty());
            assert(mult * 0 == 0);
        }
        size
    }
}

} // verus!

//! The `<!--DASC` container: a fixed header and two gzip-compressed blocks.

use vstd::prelude::*;
use crate::error::{ErrorView, SaveError};
use crate::text::bytes_eq;
use crate::trusted::{gunzip, gunzipped};

verus! {

/// The bytes `<!--DASC` that open every container.
pub open spec fn magic() -> Seq<u8> {
    seq![0x3Cu8, 0x21u8, 0x2Du8, 0x2Du8, 0x44u8, 0x41u8, 0x53u8, 0x43u8]
}

pub fn magic_bytes() -> (r: Vec<u8>)
    ensures
        r@ == magic(),
{
    let r = vec![0x3Cu8, 0x21u8, 0x2Du8, 0x2Du8, 0x44u8, 0x41u8, 0x53u8, 0x43u8];
    assert(r@ =~= magic());
    r
}

/// Length of the header: magic, version, four reserved bytes, four sizes
/// and eight reserved bytes.
pub const HEADER_LEN: usize = 56;

pub open spec fn pow256(n: nat) -> nat
    decreases n,
{
    if n == 0 {
        1
    } else {
        256 * pow256((n - 1) as nat)
    }
}

/// The number whose little-endian bytes are `s`.
pub open spec fn le_value(s: Seq<u8>) -> nat
    decreases s.len(),
{
    if s.len() == 0 {
        0
    } else {
        s[0] as nat + 256 * le_value(s.drop_first())
    }
}

/// The `n` little-endian bytes of `v`, modulo `256^n`.
pub open spec fn le_bytes(v: nat, n: nat) -> Seq<u8>
    decreases n,
{
    if n == 0 {
        Seq::empty()
    } else {
        seq![(v % 256) as u8] + le_bytes(v / 256, (n - 1) as nat)
    }
}

pub proof fn lemma_le_value_bound(s: Seq<u8>)
    ensures
        le_value(s) < pow256(s.len()),
    decreases s.len(),
{
    if s.len() > 0 {
        lemma_le_value_bound(s.drop_first());
        let r = le_value(s.drop_first());
        let p = pow256(s.drop_first().len());
        assert(s[0] as nat + 256 * r < 256 * p) by (nonlinear_arith)
            requires r < p, s[0] < 256;
    }
}

/// Reading back the bytes of a value that fits them gives the value.
pub proof fn lemma_le_round_trip(v: nat, n: nat)
    requires
        v < pow256(n),
    ensures
        le_value(le_bytes(v, n)) == v,
        le_bytes(v, n).len() == n,
    decreases n,
{
    if n > 0 {
        let p = pow256((n - 1) as nat);
        assert(v / 256 < p) by (nonlinear_arith)
            requires v < 256 * p;
        lemma_le_round_trip(v / 256, (n - 1) as nat);
        assert(le_bytes(v, n).drop_first() =~= le_bytes(v / 256, (n - 1) as nat));
    }
}

pub proof fn lemma_pow256_8()
    ensures
        pow256(4) == 0x1_0000_0000,
        pow256(8) == 0x1_0000_0000_0000_0000,
{
    reveal_with_fuel(pow256, 9);
}

/// The fixed header of a container.
#[derive(Clone, Copy, Debug)]
pub struct Header {
    pub version: u32,
    pub _unk_001: [u8; 4],
    pub _unk_002: [u8; 8],
    pub block_one_comp_size: u64,
    pub block_one_decomp_size: u64,
    pub block_two_comp_size: u64,
    pub block_two_decomp_size: u64,
}

impl Default for Header {
    fn default() -> (r: Self)
        ensures
            r.version == 0,
            r._unk_001@ == Seq::new(4, |i: int| 0u8),
            r._unk_002@ == Seq::new(8, |i: int| 0u8),
            r.block_one_comp_size == 0,
            r.block_one_decomp_size == 0,
            r.block_two_comp_size == 0,
            r.block_two_decomp_size == 0,
    {
        let r = Header {
            version: 0,
            _unk_001: [0u8; 4],
            _unk_002: [0u8; 8],
            block_one_comp_size: 0,
            block_one_decomp_size: 0,
            block_two_comp_size: 0,
            block_two_decomp_size: 0,
        };
        assert(r._unk_001@ =~= Seq::new(4, |i: int| 0u8));
        assert(r._unk_002@ =~= Seq::new(8, |i: int| 0u8));
        r
    }
}

/// The header fields of a container.
pub ghost struct HeaderView {
    pub version: nat,
    pub unk_001: Seq<u8>,
    pub block_two_decomp_size: nat,
    pub block_two_comp_size: nat,
    pub block_one_decomp_size: nat,
    pub block_one_comp_size: nat,
    pub unk_002: Seq<u8>,
}

impl Header {
    /// All fields zero, as `default` makes them.
    pub open spec fn is_default(&self) -> bool {
        &&& self.version == 0
        &&& self._unk_001@ == Seq::new(4, |i: int| 0u8)
        &&& self._unk_002@ == Seq::new(8, |i: int| 0u8)
        &&& self.block_one_comp_size == 0
        &&& self.block_one_decomp_size == 0
        &&& self.block_two_comp_size == 0
        &&& self.block_two_decomp_size == 0
    }

    pub open spec fn matches(&self, h: HeaderView) -> bool {
        &&& self.version == h.version
        &&& self._unk_001@ == h.unk_001
        &&& self._unk_002@ == h.unk_002
        &&& self.block_one_comp_size == h.block_one_comp_size
        &&& self.block_one_decomp_size == h.block_one_decomp_size
        &&& self.block_two_comp_size == h.block_two_comp_size
        &&& self.block_two_decomp_size == h.block_two_decomp_size
    }
}

/// The header that the container `d` starts with.
pub open spec fn header_of(d: Seq<u8>) -> Result<HeaderView, ErrorView> {
    if d.len() < 8 {
        Err(ErrorView::UnexpectedEof)
    } else if d.subrange(0, 8) != magic() {
        Err(ErrorView::BadMagic)
    } else if d.len() < HEADER_LEN {
        Err(ErrorView::UnexpectedEof)
    } else {
        Ok(
            HeaderView {
                version: le_value(d.subrange(8, 12)),
                unk_001: d.subrange(12, 16),
                block_two_decomp_size: le_value(d.subrange(16, 24)),
                block_two_comp_size: le_value(d.subrange(24, 32)),
                block_one_decomp_size: le_value(d.subrange(32, 40)),
                block_one_comp_size: le_value(d.subrange(40, 48)),
                unk_002: d.subrange(48, 56),
            },
        )
    }
}

/// The compressed bytes of block one, which follow the header.
pub open spec fn block_one_comp_of(d: Seq<u8>, h: HeaderView) -> Option<Seq<u8>> {
    if HEADER_LEN + h.block_one_comp_size <= d.len() {
        Some(d.subrange(HEADER_LEN as int, HEADER_LEN + h.block_one_comp_size))
    } else {
        None
    }
}

/// The compressed bytes of block two, which follow those of block one.
pub open spec fn block_two_comp_of(d: Seq<u8>, h: HeaderView) -> Option<Seq<u8>> {
    let start = HEADER_LEN + h.block_one_comp_size;
    if start + h.block_two_comp_size <= d.len() {
        Some(d.subrange(start, start + h.block_two_comp_size))
    } else {
        None
    }
}

/// What a block inflates to, which must be exactly its declared length.
pub open spec fn inflated(comp: Seq<u8>, len: nat) -> Result<Seq<u8>, ErrorView> {
    match gunzipped(comp) {
        None => Err(ErrorView::Decompress),
        Some(b) => if b.len() == len {
            Ok(b)
        } else {
            Err(ErrorView::SizeMismatch)
        },
    }
}

/// The header and the two inflated blocks of the container `d`.
pub open spec fn blocks_of(d: Seq<u8>) -> Result<(HeaderView, Seq<u8>, Seq<u8>), ErrorView> {
    match header_of(d) {
        Err(e) => Err(e),
        Ok(h) => match block_one_comp_of(d, h) {
            None => Err(ErrorView::UnexpectedEof),
            Some(c1) => match inflated(c1, h.block_one_decomp_size) {
                Err(e) => Err(e),
                Ok(b1) => match block_two_comp_of(d, h) {
                    None => Err(ErrorView::UnexpectedEof),
                    Some(c2) => match inflated(c2, h.block_two_decomp_size) {
                        Err(e) => Err(e),
                        Ok(b2) => Ok((h, b1, b2)),
                    },
                },
            },
        },
    }
}

/// A container: magic, version, reserved bytes, the sizes of both blocks
/// inflated and compressed (block two first), more reserved bytes, then the
/// compressed blocks, block one first.
pub open spec fn container_bytes(
    version: nat,
    unk_001: Seq<u8>,
    block_two_decomp_size: nat,
    block_one_decomp_size: nat,
    unk_002: Seq<u8>,
    comp_one: Seq<u8>,
    comp_two: Seq<u8>,
) -> Seq<u8> {
    magic() + le_bytes(version, 4) + unk_001 + le_bytes(block_two_decomp_size, 8) + le_bytes(
        comp_two.len(),
        8,
    ) + le_bytes(block_one_decomp_size, 8) + le_bytes(comp_one.len(), 8) + unk_002 + comp_one
        + comp_two
}

/// Reading the header of a written container gives back what was written,
/// and the two compressed blocks lie where the header says.
pub proof fn lemma_container_framing_round_trip(
    version: nat,
    unk_001: Seq<u8>,
    block_two_decomp_size: nat,
    block_one_decomp_size: nat,
    unk_002: Seq<u8>,
    comp_one: Seq<u8>,
    comp_two: Seq<u8>,
)
    requires
        version < 0x1_0000_0000,
        unk_001.len() == 4,
        unk_002.len() == 8,
        block_two_decomp_size < 0x1_0000_0000_0000_0000,
        block_one_decomp_size < 0x1_0000_0000_0000_0000,
        comp_one.len() < 0x1_0000_0000_0000_0000,
        comp_two.len() < 0x1_0000_0000_0000_0000,
    ensures
        ({
            let d = container_bytes(
                version,
                unk_001,
                block_two_decomp_size,
                block_one_decomp_size,
                unk_002,
                comp_one,
                comp_two,
            );
            let h = HeaderView {
                version,
                unk_001,
                block_two_decomp_size,
                block_two_comp_size: comp_two.len(),
                block_one_decomp_size,
                block_one_comp_size: comp_one.len(),
                unk_002,
            };
            &&& header_of(d) == Ok::<HeaderView, ErrorView>(h)
            &&& block_one_comp_of(d, h) == Some(comp_one)
            &&& block_two_comp_of(d, h) == Some(comp_two)
        }),
{
    lemma_pow256_8();
    lemma_le_round_trip(version, 4);
    lemma_le_round_trip(block_two_decomp_size, 8);
    lemma_le_round_trip(comp_two.len(), 8);
    lemma_le_round_trip(block_one_decomp_size, 8);
    lemma_le_round_trip(comp_one.len(), 8);
    let d = container_bytes(
        version,
        unk_001,
        block_two_decomp_size,
        block_one_decomp_size,
        unk_002,
        comp_one,
        comp_two,
    );
    assert(d.subrange(0, 8) =~= magic());
    assert(d.subrange(8, 12) =~= le_bytes(version, 4));
    assert(d.subrange(12, 16) =~= unk_001);
    assert(d.subrange(16, 24) =~= le_bytes(block_two_decomp_size, 8));
    assert(d.subrange(24, 32) =~= le_bytes(comp_two.len(), 8));
    assert(d.subrange(32, 40) =~= le_bytes(block_one_decomp_size, 8));
    assert(d.subrange(40, 48) =~= le_bytes(comp_one.len(), 8));
    assert(d.subrange(48, 56) =~= unk_002);
    assert(d.subrange(56, 56 + comp_one.len() as int) =~= comp_one);
    assert(d.subrange(56 + comp_one.len() as int, 56 + comp_one.len() + comp_two.len() as int) =~= comp_two);
}

/// A container written from two blocks and gzip streams that inflate back to
/// them reads back to its header and to those two blocks.
pub proof fn lemma_container_round_trip(
    version: nat,
    unk_001: Seq<u8>,
    unk_002: Seq<u8>,
    block_one: Seq<u8>,
    block_two: Seq<u8>,
    comp_one: Seq<u8>,
    comp_two: Seq<u8>,
)
    requires
        version < 0x1_0000_0000,
        unk_001.len() == 4,
        unk_002.len() == 8,
        block_one.len() < 0x1_0000_0000_0000_0000,
        block_two.len() < 0x1_0000_0000_0000_0000,
        comp_one.len() < 0x1_0000_0000_0000_0000,
        comp_two.len() < 0x1_0000_0000_0000_0000,
        gunzipped(comp_one) == Some(block_one),
        gunzipped(comp_two) == Some(block_two),
    ensures
        blocks_of(
            container_bytes(version, unk_001, block_two.len(), block_one.len(), unk_002, comp_one, comp_two),
        ) == Ok::<(HeaderView, Seq<u8>, Seq<u8>), ErrorView>(
            (
                HeaderView {
                    version,
                    unk_001,
                    block_two_decomp_size: block_two.len(),
                    block_two_comp_size: comp_two.len(),
                    block_one_decomp_size: block_one.len(),
                    block_one_comp_size: comp_one.len(),
                    unk_002,
                },
                block_one,
                block_two,
            ),
        ),
{
    lemma_container_framing_round_trip(
        version,
        unk_001,
        block_two.len(),
        block_one.len(),
        unk_002,
        comp_one,
        comp_two,
    );
}

/// The `n` little-endian bytes of `v`.
pub fn le_bytes_of(v: u64, n: usize) -> (r: Vec<u8>)
    requires
        n <= 8,
    ensures
        r@ == le_bytes(v as nat, n as nat),
{
    let mut out: Vec<u8> = Vec::new();
    let mut x = v;
    let mut i: usize = 0;
    while i < n
        invariant
            i <= n,
            out@ + le_bytes(x as nat, (n - i) as nat) == le_bytes(v as nat, n as nat),
        decreases n - i,
    {
        proof {
            assert(out@ + le_bytes(x as nat, (n - i) as nat) =~= out@.push((x % 256) as u8) + le_bytes(
                (x / 256) as nat,
                (n - i - 1) as nat,
            ));
        }
        out.push((x % 256) as u8);
        x = x / 256;
        i = i + 1;
    }
    proof {
        assert(out@ =~= out@ + le_bytes(x as nat, 0));
    }
    out
}

/// Reads a container from its bytes.
pub struct BWSaveGameReader {
    pub data: Vec<u8>,
    pub pos: usize,
    pub header: Header,
    pub block_one_data: Vec<u8>,
    pub block_two_data: Vec<u8>,
}

impl BWSaveGameReader {
    pub open spec fn wf(&self) -> bool {
        self.pos <= self.data@.len()
    }

    pub fn new(data: Vec<u8>) -> (r: Self)
        ensures
            r.wf(),
            r.data == data,
            r.pos == 0,
            r.header.is_default(),
            r.block_one_data@.len() == 0,
            r.block_two_data@.len() == 0,
    {
        BWSaveGameReader {
            data,
            pos: 0,
            header: Header::default(),
            block_one_data: Vec::new(),
            block_two_data: Vec::new(),
        }
    }

    pub fn read_bytes(&mut self, count: usize) -> (r: Result<Vec<u8>, SaveError>)
        requires
            old(self).wf(),
        ensures
            final(self).wf(),
            final(self).data == old(self).data,
            final(self).header == old(self).header,
            final(self).block_one_data == old(self).block_one_data,
            final(self).block_two_data == old(self).block_two_data,
            old(self).pos + count <= old(self).data@.len() ==> r is Ok && r->Ok_0@
                == old(self).data@.subrange(old(self).pos as int, old(self).pos + count)
                && final(self).pos == old(self).pos + count,
            old(self).pos + count > old(self).data@.len() ==> r is Err && r->Err_0@
                == ErrorView::UnexpectedEof,
    {
        if count > self.data.len() - self.pos {
            return Err(SaveError::UnexpectedEof);
        }
        let end = self.pos + count;
        let out = vstd::slice::slice_to_vec(vstd::slice::slice_subrange(self.data.as_slice(), self.pos, end));
        self.pos = end;
        Ok(out)
    }

    /// The little-endian number in `b`.
    fn le_number(b: &[u8]) -> (r: u64)
        requires
            b@.len() <= 8,
        ensures
            r == le_value(b@),
    {
        let mut acc: u64 = 0;
        let mut i: usize = b.len();
        proof {
            assert(b@.subrange(i as int, i as int) =~= Seq::<u8>::empty());
        }
        while i > 0
            invariant
                b@.len() <= 8,
                i <= b@.len(),
                acc == le_value(b@.subrange(i as int, b@.len() as int)),
            decreases i,
        {
            let ghost tail = b@.subrange(i as int, b@.len() as int);
            proof {
                lemma_le_value_bound(tail);
                lemma_pow256_8();
                lemma_pow256_mono(tail.len(), 7);
                assert(b@.subrange(i - 1, b@.len() as int).drop_first() =~= tail);
            }
            acc = b[i - 1] as u64 + 256 * acc;
            i = i - 1;
        }
        proof {
            assert(b@.subrange(0, b@.len() as int) =~= b@);
        }
        acc
    }

    pub fn read_u32_le(&mut self) -> (r: Result<u32, SaveError>)
        requires
            old(self).wf(),
        ensures
            final(self).wf(),
            final(self).data == old(self).data,
            final(self).header == old(self).header,
            final(self).block_one_data == old(self).block_one_data,
            final(self).block_two_data == old(self).block_two_data,
            old(self).pos + 4 <= old(self).data@.len() ==> r is Ok && r->Ok_0 == le_value(
                old(self).data@.subrange(old(self).pos as int, old(self).pos + 4),
            ) && final(self).pos == old(self).pos + 4,
            old(self).pos + 4 > old(self).data@.len() ==> r is Err && r->Err_0@
                == ErrorView::UnexpectedEof,
    {
        let b = self.read_bytes(4)?;
        let v = Self::le_number(b.as_slice());
        proof {
            lemma_le_value_bound(b@);
            lemma_pow256_8();
        }
        Ok(v as u32)
    }

    pub fn read_u64_le(&mut self) -> (r: Result<u64, SaveError>)
        requires
            old(self).wf(),
        ensures
            final(self).wf(),
            final(self).data == old(self).data,
            final(self).header == old(self).header,
            final(self).block_one_data == old(self).block_one_data,
            final(self).block_two_data == old(self).block_two_data,
            old(self).pos + 8 <= old(self).data@.len() ==> r is Ok && r->Ok_0 == le_value(
                old(self).data@.subrange(old(self).pos as int, old(self).pos + 8),
            ) && final(self).pos == old(self).pos + 8,
            old(self).pos + 8 > old(self).data@.len() ==> r is Err && r->Err_0@
                == ErrorView::UnexpectedEof,
    {
        let b = self.read_bytes(8)?;
        Ok(Self::le_number(b.as_slice()))
    }

    /// Reads the header from the start of the data.
    pub fn read_header(&mut self) -> (r: Result<(), SaveError>)
        ensures
            final(self).wf(),
            final(self).data == old(self).data,
            final(self).block_one_data == old(self).block_one_data,
            final(self).block_two_data == old(self).block_two_data,
            match header_of(old(self).data@) {
                Ok(h) => r is Ok && final(self).header.matches(h) && final(self).pos == HEADER_LEN,
                Err(e) => r is Err && r->Err_0@ == e && final(self).header == old(self).header,
            },
    {
        let ghost d = self.data@;
        self.pos = 0;
        let buf = self.read_bytes(8)?;
        let m = magic_bytes();
        if !bytes_eq(buf.as_slice(), m.as_slice()) {
            return Err(SaveError::BadMagic);
        }
        let version = self.read_u32_le()?;
        let u1 = self.read_bytes(4)?;
        let unk_001: [u8; 4] = [u1[0], u1[1], u1[2], u1[3]];
        let block_two_decomp_size = self.read_u64_le()?;
        let block_two_comp_size = self.read_u64_le()?;
        let block_one_decomp_size = self.read_u64_le()?;
        let block_one_comp_size = self.read_u64_le()?;
        let u2 = self.read_bytes(8)?;
        let unk_002: [u8; 8] = [u2[0], u2[1], u2[2], u2[3], u2[4], u2[5], u2[6], u2[7]];
        assert(unk_001@ =~= d.subrange(12, 16));
        assert(unk_002@ =~= d.subrange(48, 56));
        self.header = Header {
            version,
            _unk_001: unk_001,
            _unk_002: unk_002,
            block_one_comp_size,
            block_one_decomp_size,
            block_two_comp_size,
            block_two_decomp_size,
        };
        Ok(())
    }

    /// Reads `comp_size` compressed bytes at the cursor and inflates them,
    /// which must give `decomp_size` bytes.
    fn read_block(&mut self, comp_size: u64, decomp_size: u64) -> (r: Result<Vec<u8>, SaveError>)
        requires
            old(self).wf(),
        ensures
            final(self).wf(),
            final(self).data == old(self).data,
            final(self).header == old(self).header,
            final(self).block_one_data == old(self).block_one_data,
            final(self).block_two_data == old(self).block_two_data,
            ({
                let d = old(self).data@;
                let p = old(self).pos as int;
                if p + comp_size > d.len() {
                    r is Err && r->Err_0@ == ErrorView::UnexpectedEof
                } else {
                    match inflated(d.subrange(p, p + comp_size), decomp_size as nat) {
                        Ok(b) => r is Ok && r->Ok_0@ == b && final(self).pos == p + comp_size,
                        Err(e) => r is Err && r->Err_0@ == e,
                    }
                }
            }),
    {
        if comp_size > (self.data.len() - self.pos) as u64 {
            return Err(SaveError::UnexpectedEof);
        }
        let comp_data = self.read_bytes(comp_size as usize)?;
        match gunzip(comp_data.as_slice()) {
            Some(b) => if b.len() as u64 == decomp_size {
                Ok(b)
            } else {
                Err(SaveError::SizeMismatch)
            },
            None => Err(SaveError::Decompress),
        }
    }

    /// Reads and inflates block one, which follows the header.
    pub fn read_block_one_data(&mut self) -> (r: Result<(), SaveError>)
        requires
            old(self).wf(),
        ensures
            final(self).wf(),
            final(self).data == old(self).data,
            final(self).header == old(self).header,
            final(self).block_two_data == old(self).block_two_data,
            r is Err ==> final(self).block_one_data == old(self).block_one_data,
            ({
                let d = old(self).data@;
                let p = old(self).pos as int;
                let c = old(self).header.block_one_comp_size;
                if p + c > d.len() {
                    r is Err && r->Err_0@ == ErrorView::UnexpectedEof
                } else {
                    match inflated(d.subrange(p, p + c), old(self).header.block_one_decomp_size as nat) {
                        Ok(b) => r is Ok && final(self).block_one_data@ == b && final(self).pos == p + c,
                        Err(e) => r is Err && r->Err_0@ == e,
                    }
                }
            }),
    {
        let b = self.read_block(self.header.block_one_comp_size, self.header.block_one_decomp_size)?;
        self.block_one_data = b;
        Ok(())
    }

    /// Reads and inflates block two, which follows block one.
    pub fn read_block_two_data(&mut self) -> (r: Result<(), SaveError>)
        requires
            old(self).wf(),
        ensures
            final(self).wf(),
            final(self).data == old(self).data,
            final(self).header == old(self).header,
            final(self).block_one_data == old(self).block_one_data,
            r is Err ==> final(self).block_two_data == old(self).block_two_data,
            ({
                let d = old(self).data@;
                let p = old(self).pos as int;
                let c = old(self).header.block_two_comp_size;
                if p + c > d.len() {
                    r is Err && r->Err_0@ == ErrorView::UnexpectedEof
                } else {
                    match inflated(d.subrange(p, p + c), old(self).header.block_two_decomp_size as nat) {
                        Ok(b) => r is Ok && final(self).block_two_data@ == b && final(self).pos == p + c,
                        Err(e) => r is Err && r->Err_0@ == e,
                    }
                }
            }),
    {
        let b = self.read_block(self.header.block_two_comp_size, self.header.block_two_decomp_size)?;
        self.block_two_data = b;
        Ok(())
    }

    /// Reads the header and both blocks.
    pub fn read_all(&mut self) -> (r: Result<(), SaveError>)
        ensures
            final(self).data == old(self).data,
            match blocks_of(old(self).data@) {
                Ok((h, b1, b2)) => r is Ok && final(self).header.matches(h)
                    && final(self).block_one_data@ == b1 && final(self).block_two_data@ == b2,
                Err(e) => r is Err && r->Err_0@ == e,
            },
    {
        self.read_header()?;
        self.read_block_one_data()?;
        self.read_block_two_data()?;
        Ok(())
    }
}

pub proof fn lemma_pow256_mono(a: nat, b: nat)
    requires
        a <= b,
    ensures
        pow256(a) <= pow256(b),
    decreases b,
{
    if a < b {
        lemma_pow256_mono(a, (b - 1) as nat);
    }
}

} // verus!

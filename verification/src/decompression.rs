//! Decompression of compressed stream data blocks: bit packing and DPCM.

use crate::errors::{VgmError, VgmResult};
use crate::text::{decimal_string, decimal_text, hex_byte_string, hex_byte_text, joined};
use crate::utils::is_format_error;
use crate::vgm_commands::{CompressionType, DataBlockContent};
use vstd::arithmetic::power2::{lemma2_to64, lemma_pow2_strictly_increases, lemma_pow2_unfold, pow2};
use vstd::prelude::*;

verus! {

/// The bit at position `p` of `data`, counting from the most significant
/// bit of the first byte.
pub open spec fn bit_at(data: Seq<u8>, p: int) -> u8 {
    (data[p / 8] >> ((7 - p % 8) as u8)) & 1u8
}

/// The `n` bits of `data` from bit position `p` on, read as a number with
/// the first bit most significant.
pub open spec fn bits_value(data: Seq<u8>, p: int, n: nat) -> nat
    decreases n,
{
    if n == 0 {
        0
    } else {
        (2 * bits_value(data, p, (n - 1) as nat) + bit_at(data, p + n - 1)) as nat
    }
}

/// The weight of the `i`th byte of a little-endian number.
pub open spec fn byte_weight(i: nat) -> nat
    decreases i,
{
    if i == 0 {
        1
    } else {
        256 * byte_weight((i - 1) as nat)
    }
}

/// The `n` bytes of `t` from `at` on, read as a little-endian number.
pub open spec fn le_word(t: Seq<u8>, at: int, n: nat) -> nat
    decreases n,
{
    if n == 0 {
        0
    } else {
        (le_word(t, at, (n - 1) as nat) + t[at + n - 1] * byte_weight((n - 1) as nat)) as nat
    }
}

/// The first `k` little-endian bytes of `w`.
pub open spec fn word_bytes(w: u32, k: nat) -> Seq<u8> {
    Seq::new(k, |i: int| (w >> ((i * 8) as u32)) as u8)
}

/// `x` reduced to 32 bits.
pub open spec fn wrap32(x: int) -> u32 {
    (x % 0x1_0000_0000) as u32
}

/// How many bytes a value of `bits` bits takes.
pub open spec fn value_bytes(bits: u8) -> nat {
    ((bits + 7) / 8) as nat
}

/// How many bytes of each value are written: at most four.
pub open spec fn written_bytes(bits: u8) -> nat {
    if value_bytes(bits) < 4 {
        value_bytes(bits)
    } else {
        4
    }
}

/// What decompressing gives: the bytes, or the reason it stops. `Undefined`
/// stands for the inputs on which decompression has no result (it would
/// never end or would overflow a shift).
pub enum Unpacked {
    Bytes(Seq<u8>),
    BitCount,
    Underflow,
    NoTable,
    TableIndex(nat),
    SubType,
    Undefined,
}

/// The parameters of a bit-packed stream.
pub struct BitPacking {
    pub bits_compressed: u8,
    pub bits_decompressed: u8,
    pub sub_type: u8,
    pub add_value: u16,
    pub size: nat,
}

/// The value that a compressed value `v` stands for in a bit-packed stream
/// (the table is read only by sub-type 2).
pub open spec fn unpacked_value(p: BitPacking, table: Seq<u8>, v: nat) -> u32 {
    if p.sub_type == 0 {
        wrap32(v + p.add_value)
    } else if p.sub_type == 1 {
        wrap32(((v as u32) << ((p.bits_decompressed - p.bits_compressed) as u32)) + p.add_value)
    } else {
        le_word(table, (v * value_bytes(p.bits_decompressed)) as int, value_bytes(p.bits_decompressed)) as u32
    }
}

/// Decompressing a bit-packed stream from bit `pos` of `data` on, with
/// `acc` already written: one value per step, each written as its first
/// little-endian bytes, until `p.size` bytes are written.
pub open spec fn bit_packed(p: BitPacking, data: Seq<u8>, table: Option<Seq<u8>>, pos: int, acc: Seq<u8>) -> Unpacked
    decreases (p.size - acc.len()) + (8 * data.len() - pos),
{
    let bpv = value_bytes(p.bits_decompressed);
    let n = written_bytes(p.bits_decompressed);
    if acc.len() >= p.size || pos < 0 || pos > 8 * data.len() {
        Unpacked::Bytes(acc)
    } else if p.bits_compressed > 16 {
        Unpacked::BitCount
    } else if pos + p.bits_compressed > 8 * data.len() {
        Unpacked::Underflow
    } else {
        let v = bits_value(data, pos, p.bits_compressed as nat);
        if p.sub_type > 2 {
            Unpacked::SubType
        } else if p.sub_type == 2 && table is None {
            Unpacked::NoTable
        } else if p.sub_type == 2 && v * bpv + bpv > table->0.len() {
            Unpacked::TableIndex(v * bpv)
        } else if (p.sub_type == 1 && (p.bits_decompressed < p.bits_compressed || p.bits_decompressed
            - p.bits_compressed >= 32)) || (p.sub_type == 2 && bpv > 4) || (n == 0 && p.bits_compressed
            == 0) {
            Unpacked::Undefined
        } else {
            let w = unpacked_value(p, if table is Some { table->0 } else { Seq::empty() }, v);
            let k = if n < p.size - acc.len() { n } else { (p.size - acc.len()) as nat };
            bit_packed(p, data, table, pos + p.bits_compressed, acc + word_bytes(w, k))
        }
    }
}

/// Decompressing a bit-packed stream that succeeds gives exactly the
/// stream's size in bytes.
pub proof fn lemma_bit_packed_size(p: BitPacking, data: Seq<u8>, table: Option<Seq<u8>>, pos: int, acc: Seq<u8>)
    requires
        acc.len() <= p.size,
        0 <= pos <= 8 * data.len(),
    ensures
        bit_packed(p, data, table, pos, acc) matches Unpacked::Bytes(b) ==> b.len() == p.size,
    decreases (p.size - acc.len()) + (8 * data.len() - pos),
{
    let n = written_bytes(p.bits_decompressed);
    if acc.len() >= p.size || pos < 0 || pos > 8 * data.len() || p.bits_compressed > 16 || pos
        + p.bits_compressed > 8 * data.len() {
    } else {
        let v = bits_value(data, pos, p.bits_compressed as nat);
        let bpv = value_bytes(p.bits_decompressed);
        if p.sub_type > 2 || (p.sub_type == 2 && table is None) || (p.sub_type == 2 && v * bpv + bpv
            > table->0.len()) || (p.sub_type == 1 && (p.bits_decompressed < p.bits_compressed
            || p.bits_decompressed - p.bits_compressed >= 32)) || (p.sub_type == 2 && bpv > 4) || (n == 0
            && p.bits_compressed == 0) {
        } else {
            let w = unpacked_value(p, if table is Some { table->0 } else { Seq::empty() }, v);
            let k = if n < p.size - acc.len() { n } else { (p.size - acc.len()) as nat };
            lemma_bit_packed_size(p, data, table, pos + p.bits_compressed, acc + word_bytes(w, k));
        }
    }
}

/// For bit packing sub-types 0 and 1, the `i`th decompressed byte: values
/// of `bd` bits are written as their first `written_bytes(bd)`
/// little-endian bytes, and the `k`th value comes from the `k`th `bc`-bit
/// compressed value `v`: sub-type 0 gives `v` plus `add`, sub-type 1 gives
/// `v` shifted left by `bd - bc` bits, plus `add`; both modulo 2^32.
pub open spec fn packed_byte(data: Seq<u8>, bc: u8, bd: u8, sub_type: u8, add: u16, i: int) -> u8 {
    let n = written_bytes(bd);
    let v = bits_value(data, (i / n as int) * bc, bc as nat);
    let value = if sub_type == 0 {
        ((v + add) % 0x1_0000_0000) as u32
    } else {
        ((((v as u32) << ((bd - bc) as u32)) as int + add) % 0x1_0000_0000) as u32
    };
    (value >> ((8 * (i % n as int)) as u32)) as u8
}

/// For bit packing sub-type 1, the `i`th decompressed byte (see `packed_byte`).
pub open spec fn shifted_byte(data: Seq<u8>, bc: u8, bd: u8, add: u16, i: int) -> u8 {
    packed_byte(data, bc, bd, 1, add, i)
}

proof fn lemma_packed_values(p: BitPacking, data: Seq<u8>, table: Option<Seq<u8>>, pos: int, acc: Seq<u8>)
    requires
        p.sub_type <= 1,
        written_bytes(p.bits_decompressed) > 0,
        (acc.len() as int) % (written_bytes(p.bits_decompressed) as int) == 0,
        pos == ((acc.len() as int) / (written_bytes(p.bits_decompressed) as int)) * p.bits_compressed,
        forall|i: int|
            0 <= i < acc.len() ==> acc[i] == #[trigger] packed_byte(
                data,
                p.bits_compressed,
                p.bits_decompressed,
                p.sub_type,
                p.add_value,
                i,
            ),
    ensures
        bit_packed(p, data, table, pos, acc) matches Unpacked::Bytes(b) ==> forall|i: int|
            0 <= i < b.len() ==> b[i] == #[trigger] packed_byte(
                data,
                p.bits_compressed,
                p.bits_decompressed,
                p.sub_type,
                p.add_value,
                i,
            ),
    decreases (p.size - acc.len()) + (8 * data.len() - pos),
{
    let n = written_bytes(p.bits_decompressed);
    let bc = p.bits_compressed;
    let q: int = (acc.len() as int) / (n as int);
    assert(q * bc >= 0) by (nonlinear_arith)
        requires
            q >= 0,
            bc >= 0,
    ;
    if acc.len() >= p.size || pos < 0 || pos > 8 * data.len() || bc > 16 || pos + bc > 8 * data.len() {
    } else {
        let v = bits_value(data, pos, bc as nat);
        if p.sub_type == 1 && (p.bits_decompressed < bc || p.bits_decompressed - bc >= 32) {
        } else {
            let w = unpacked_value(p, if table is Some { table->0 } else { Seq::empty() }, v);
            let k = if n < p.size - acc.len() { n } else { (p.size - acc.len()) as nat };
            let acc2 = acc + word_bytes(w, k);
            vstd::arithmetic::div_mod::lemma_fundamental_div_mod(acc.len() as int, n as int);
            assert(acc.len() == q * n);
            assert forall|i: int| acc.len() <= i < acc2.len() implies acc2[i] == #[trigger] packed_byte(
                data,
                bc,
                p.bits_decompressed,
                p.sub_type,
                p.add_value,
                i,
            ) by {
                vstd::arithmetic::div_mod::lemma_fundamental_div_mod_converse(i, n as int, q, i - (acc.len() as int));
            }
            assert forall|i: int| 0 <= i < acc2.len() implies acc2[i] == #[trigger] packed_byte(
                data,
                bc,
                p.bits_decompressed,
                p.sub_type,
                p.add_value,
                i,
            ) by {
                if i < acc.len() {
                    assert(acc2[i] == acc[i]);
                }
            }
            if k == n {
                assert((q + 1) * n == q * n + n) by (nonlinear_arith);
                vstd::arithmetic::div_mod::lemma_fundamental_div_mod_converse(acc2.len() as int, n as int, q + 1, 0);
                assert((q + 1) * bc == q * bc + bc) by (nonlinear_arith);
                lemma_packed_values(p, data, table, pos + bc, acc2);
            } else {
                assert(acc2.len() >= p.size);
            }
        }
    }
}

/// Bit packing sub-type 1 shifts each value left: where decompression
/// gives bytes, the `k`th value written is the `k`th `bits_compressed`-bit
/// compressed value shifted left by `bits_decompressed - bits_compressed`
/// bits, plus `add_value`, modulo 2^32, written as its first
/// `written_bytes(bits_decompressed)` little-endian bytes (8 to 16 bits
/// shifts by 8).
pub proof fn lemma_bit_packing_shifts(
    data: Seq<u8>,
    bits_compressed: u8,
    bits_decompressed: u8,
    add_value: u16,
    size: nat,
    table: Option<Seq<u8>>,
)
    ensures
        bit_packed(
            BitPacking { bits_compressed, bits_decompressed, sub_type: 1, add_value, size },
            data,
            table,
            0,
            Seq::empty(),
        ) matches Unpacked::Bytes(b) ==> forall|i: int|
            0 <= i < b.len() ==> b[i] == #[trigger] shifted_byte(data, bits_compressed, bits_decompressed, add_value, i),
{
    let p = BitPacking { bits_compressed, bits_decompressed, sub_type: 1, add_value, size };
    if written_bytes(bits_decompressed) > 0 {
        assert(0int % (written_bytes(bits_decompressed) as int) == 0);
        assert(0int / (written_bytes(bits_decompressed) as int) == 0);
        lemma_packed_values(p, data, table, 0, Seq::empty());
    }
}

/// Values of no bytes write nothing: what decompression gives is what was
/// written before.
proof fn lemma_nothing_written(p: BitPacking, data: Seq<u8>, table: Option<Seq<u8>>, pos: int, acc: Seq<u8>)
    requires
        written_bytes(p.bits_decompressed) == 0,
    ensures
        bit_packed(p, data, table, pos, acc) matches Unpacked::Bytes(b) ==> b == acc,
    decreases (p.size - acc.len()) + (8 * data.len() - pos),
{
    let n = written_bytes(p.bits_decompressed);
    if acc.len() >= p.size || pos < 0 || pos > 8 * data.len() || p.bits_compressed > 16 || pos
        + p.bits_compressed > 8 * data.len() {
    } else {
        let v = bits_value(data, pos, p.bits_compressed as nat);
        let bpv = value_bytes(p.bits_decompressed);
        if p.sub_type > 2 || (p.sub_type == 2 && table is None) || (p.sub_type == 2 && v * bpv + bpv
            > table->0.len()) || (p.sub_type == 1 && (p.bits_decompressed < p.bits_compressed
            || p.bits_decompressed - p.bits_compressed >= 32)) || (p.sub_type == 2 && bpv > 4) || (n == 0
            && p.bits_compressed == 0) {
        } else {
            let w = unpacked_value(p, if table is Some { table->0 } else { Seq::empty() }, v);
            assert(acc + word_bytes(w, 0) =~= acc);
            lemma_nothing_written(p, data, table, pos + p.bits_compressed, acc);
        }
    }
}

/// Bit packing sub-type 0 adds to each value: where decompression gives
/// bytes, the `k`th value written is the `k`th `bits_compressed`-bit
/// compressed value plus `add_value`, modulo 2^32, written as its first
/// `written_bytes(bits_decompressed)` little-endian bytes.
pub proof fn lemma_bit_packing_adds(
    data: Seq<u8>,
    bits_compressed: u8,
    bits_decompressed: u8,
    add_value: u16,
    size: nat,
    table: Option<Seq<u8>>,
)
    ensures
        bit_packed(
            BitPacking { bits_compressed, bits_decompressed, sub_type: 0, add_value, size },
            data,
            table,
            0,
            Seq::empty(),
        ) matches Unpacked::Bytes(b) ==> forall|i: int|
            0 <= i < b.len() ==> b[i] == #[trigger] packed_byte(data, bits_compressed, bits_decompressed, 0, add_value, i),
{
    let p = BitPacking { bits_compressed, bits_decompressed, sub_type: 0, add_value, size };
    if written_bytes(bits_decompressed) == 0 {
        lemma_nothing_written(p, data, table, 0, Seq::empty());
    } else {
        assert(0int % (written_bytes(bits_decompressed) as int) == 0);
        assert(0int / (written_bytes(bits_decompressed) as int) == 0);
        lemma_packed_values(p, data, table, 0, Seq::empty());
    }
}

/// The weight of the sign bit of a value of `bpv` bytes, for fewer than four.
pub open spec fn sign_weight(bpv: nat) -> nat {
    if bpv == 1 {
        0x80
    } else if bpv == 2 {
        0x8000
    } else {
        0x80_0000
    }
}

/// A table entry of `bpv` bytes as a 32-bit two's complement delta: entries
/// of fewer than four bytes are sign-extended.
pub open spec fn dpcm_delta(d: nat, bpv: nat) -> u32 {
    if bpv < 4 && d >= sign_weight(bpv) {
        wrap32(d + 0x1_0000_0000 - 2 * sign_weight(bpv))
    } else {
        d as u32
    }
}

/// Decompressing a DPCM stream from bit `pos` of `data` on, with `state`
/// the current value and `acc` already written: each compressed value picks
/// a delta from the table, which is added to the state, and the state is
/// written as its first little-endian bytes, until `size` bytes are written.
pub open spec fn dpcm(
    bits_compressed: u8,
    bits_decompressed: u8,
    size: nat,
    data: Seq<u8>,
    table: Seq<u8>,
    pos: int,
    state: u32,
    acc: Seq<u8>,
) -> Unpacked
    decreases size - acc.len(),
{
    let bpv = value_bytes(bits_decompressed);
    let n = written_bytes(bits_decompressed);
    if acc.len() >= size || pos < 0 || pos > 8 * data.len() {
        Unpacked::Bytes(acc)
    } else if bits_compressed > 16 {
        Unpacked::BitCount
    } else if pos + bits_compressed > 8 * data.len() {
        Unpacked::Underflow
    } else {
        let v = bits_value(data, pos, bits_compressed as nat);
        if v * bpv + bpv > table.len() {
            Unpacked::TableIndex(v * bpv)
        } else if bpv == 0 {
            Unpacked::Undefined
        } else {
            let next = wrap32(state + dpcm_delta(le_word(table, (v * bpv) as int, n), bpv));
            let k = if n < size - acc.len() { n } else { (size - acc.len()) as nat };
            dpcm(
                bits_compressed,
                bits_decompressed,
                size,
                data,
                table,
                pos + bits_compressed,
                next,
                acc + word_bytes(next, k),
            )
        }
    }
}

/// Decompressing a DPCM stream that succeeds gives exactly the stream's
/// size in bytes.
pub proof fn lemma_dpcm_size(
    bits_compressed: u8,
    bits_decompressed: u8,
    size: nat,
    data: Seq<u8>,
    table: Seq<u8>,
    pos: int,
    state: u32,
    acc: Seq<u8>,
)
    requires
        acc.len() <= size,
        0 <= pos <= 8 * data.len(),
    ensures
        dpcm(bits_compressed, bits_decompressed, size, data, table, pos, state, acc) matches Unpacked::Bytes(b) ==> b.len()
            == size,
    decreases size - acc.len(),
{
    let bpv = value_bytes(bits_decompressed);
    let n = written_bytes(bits_decompressed);
    if acc.len() >= size || pos < 0 || pos > 8 * data.len() || bits_compressed > 16 || pos + bits_compressed > 8
        * data.len() {
    } else {
        let v = bits_value(data, pos, bits_compressed as nat);
        if v * bpv + bpv > table.len() || bpv == 0 {
        } else {
            let next = wrap32(state + dpcm_delta(le_word(table, (v * bpv) as int, n), bpv));
            let k = if n < size - acc.len() { n } else { (size - acc.len()) as nat };
            lemma_dpcm_size(
                bits_compressed,
                bits_decompressed,
                size,
                data,
                table,
                pos + bits_compressed,
                next,
                acc + word_bytes(next, k),
            );
        }
    }
}

/// Whether `r` is the result that the outcome `u` stands for; `dpcm` tells
/// which message an out-of-bounds table index gets.
pub open spec fn unpack_result(u: Unpacked, r: VgmResult<Vec<u8>>, data_len: nat, bits_compressed: u8, sub_type: u8, dpcm: bool) -> bool {
    match u {
        Unpacked::Bytes(b) => r is Ok && r->Ok_0@ == b,
        Unpacked::BitCount => r is Err && is_format_error(
            r->Err_0,
            "bit_count"@,
            "Cannot read more than 16 bits at once, requested: "@ + decimal_text(bits_compressed as nat),
        ),
        Unpacked::Underflow => r is Err && r->Err_0 == (VgmError::BufferUnderflow {
            offset: data_len as usize,
            needed: 1,
            available: 0,
        }),
        Unpacked::NoTable => r is Err && is_format_error(
            r->Err_0,
            "decompression_table"@,
            "Bit packing sub-type 0x02 requires a decompression table"@,
        ),
        Unpacked::TableIndex(i) => r is Err && if dpcm {
            is_format_error(r->Err_0, "dpcm_table_index"@, "DPCM table index "@ + decimal_text(i) + " out of bounds"@)
        } else {
            is_format_error(r->Err_0, "table_index"@, "Table index "@ + decimal_text(i) + " out of bounds"@)
        },
        Unpacked::SubType => r is Err && is_format_error(
            r->Err_0,
            "bit_packing_sub_type"@,
            "Unknown bit packing sub-type: 0x"@ + hex_byte_text(sub_type),
        ),
        Unpacked::Undefined => false,
    }
}

/// Reads bits from a byte slice, the most significant bit of each byte first.
pub struct BitReader<'a> {
    data: &'a [u8],
    byte_pos: usize,
    bit_pos: u8,
}

impl<'a> BitReader<'a> {
    /// The bytes being read.
    pub closed spec fn bytes(&self) -> Seq<u8> {
        self.data@
    }

    /// The number of bits read so far.
    pub closed spec fn pos(&self) -> int {
        self.byte_pos * 8 + self.bit_pos
    }

    /// The reader's position lies within its data.
    pub closed spec fn wf(&self) -> bool {
        &&& self.bit_pos < 8
        &&& self.byte_pos <= self.data@.len()
        &&& self.byte_pos == self.data@.len() ==> self.bit_pos == 0
    }

    /// A reader at the first bit of `data`.
    pub fn new(data: &'a [u8]) -> (r: Self)
        ensures
            r.wf(),
            r.bytes() == data@,
            r.pos() == 0,
    {
        BitReader { data, byte_pos: 0, bit_pos: 0 }
    }

    /// Reads `num_bits` bits as a number, the first bit most significant.
    pub fn read_bits(&mut self, num_bits: u8) -> (r: VgmResult<u16>)
        requires
            old(self).wf(),
        ensures
            final(self).wf(),
            final(self).bytes() == old(self).bytes(),
            num_bits > 16 ==> r is Err && is_format_error(
                r->Err_0,
                "bit_count"@,
                "Cannot read more than 16 bits at once, requested: "@ + decimal_text(num_bits as nat),
            ),
            num_bits <= 16 && old(self).pos() + num_bits > 8 * old(self).bytes().len() ==> r is Err
                && r->Err_0 == (VgmError::BufferUnderflow {
                offset: old(self).bytes().len() as usize,
                needed: 1,
                available: 0,
            }),
            num_bits <= 16 && old(self).pos() + num_bits <= 8 * old(self).bytes().len() ==> r is Ok && r->Ok_0
                == bits_value(old(self).bytes(), old(self).pos(), num_bits as nat) && final(self).pos() == old(
                self,
            ).pos() + num_bits,
    {
        if num_bits > 16 {
            let n = decimal_string(num_bits as u64);
            return Err(
                VgmError::InvalidDataFormat {
                    field: String::from_str("bit_count"),
                    details: joined("Cannot read more than 16 bits at once, requested: ", n.as_str()),
                },
            );
        }
        let ghost start = self.pos();
        let ghost data = self.data@;
        let mut result: u16 = 0;
        let mut bits_read: u8 = 0;
        proof {
            lemma2_to64();
        }
        while bits_read < num_bits
            invariant
                self.wf(),
                self.data@ == data,
                data == old(self).data@,
                start == old(self).pos(),
                num_bits <= 16,
                bits_read <= num_bits,
                self.pos() == start + bits_read,
                result == bits_value(data, start, bits_read as nat),
                result < pow2(bits_read as nat),
                pow2(16) == 0x10000,
            decreases num_bits - bits_read,
        {
            if self.byte_pos >= self.data.len() {
                return Err(VgmError::BufferUnderflow { offset: self.byte_pos, needed: 1, available: 0 });
            }
            let current_byte = self.data[self.byte_pos];
            let shift = 7 - self.bit_pos;
            let bit = (current_byte >> shift) & 1;
            proof {
                let p = self.pos();
                assert(p / 8 == self.byte_pos && p % 8 == self.bit_pos) by (nonlinear_arith)
                    requires
                        p == self.byte_pos * 8 + self.bit_pos,
                        self.bit_pos < 8,
                ;
                assert(bit == bit_at(data, p));
                assert(bit <= 1) by (bit_vector)
                    requires
                        bit == (current_byte >> shift) & 1,
                ;
                lemma_pow2_unfold((bits_read + 1) as nat);
                if bits_read + 1 < 16 {
                    lemma_pow2_strictly_increases((bits_read + 1) as nat, 16);
                }
            }
            result = result * 2 + bit as u16;
            bits_read = bits_read + 1;
            if self.bit_pos == 7 {
                self.bit_pos = 0;
                self.byte_pos = self.byte_pos + 1;
            } else {
                self.bit_pos = self.bit_pos + 1;
            }
        }
        Ok(result)
    }
}

/// The little-endian number in the `n` bytes of `t` from `at` on.
fn read_le_word(t: &[u8], at: usize, n: usize) -> (w: u32)
    requires
        at + n <= t@.len(),
        n <= 4,
    ensures
        w == le_word(t@, at as int, n as nat),
{
    let mut w: u64 = 0;
    let mut weight: u64 = 1;
    let mut i: usize = 0;
    while i < n
        invariant
            at + n <= t@.len(),
            t@.len() == t.len(),
            n <= 4,
            i <= n,
            w == le_word(t@, at as int, i as nat),
            weight == byte_weight(i as nat),
            w < weight,
            (i == 0 && weight == 1) || (i == 1 && weight == 0x100) || (i == 2 && weight == 0x1_0000) || (i == 3
                && weight == 0x100_0000) || (i == 4 && weight == 0x1_0000_0000),
        decreases n - i,
    {
        let b = t[at + i];
        assert(w + b * weight < 256 * weight) by (nonlinear_arith)
            requires
                w < weight,
                b <= 255,
        ;
        w = w + (b as u64) * weight;
        weight = weight * 256;
        i = i + 1;
    }
    w as u32
}

/// The first `k` little-endian bytes of `w`, appended to `out`.
fn push_word_bytes(out: &mut Vec<u8>, w: u32, k: usize)
    requires
        k <= 4,
    ensures
        final(out)@ == old(out)@ + word_bytes(w, k as nat),
{
    let mut i: usize = 0;
    while i < k
        invariant
            k <= 4,
            i <= k,
            out@ == old(out)@ + word_bytes(w, i as nat),
        decreases k - i,
    {
        out.push((w >> ((i * 8) as u32)) as u8);
        i = i + 1;
        assert(out@ =~= old(out)@ + word_bytes(w, i as nat));
    }
}


/// The error for an out-of-bounds table index.
fn table_index_error(prefix: &str, field: &str, index: usize) -> (e: VgmError)
    ensures
        is_format_error(e, field@, prefix@ + decimal_text(index as nat) + " out of bounds"@),
{
    let number = decimal_string(index as u64);
    let head = joined(prefix, number.as_str());
    VgmError::InvalidDataFormat { field: String::from_str(field), details: joined(head.as_str(), " out of bounds") }
}

/// The number of bytes that a value of `bits` bits takes.
fn bytes_per_value(bits: u8) -> (n: usize)
    ensures
        n == value_bytes(bits),
        n <= 32,
{
    (bits as usize + 7) / 8
}

/// At most four.
fn at_most_four(n: usize) -> (k: usize)
    ensures
        k == if n < 4 { n } else { 4 },
{
    if n < 4 {
        n
    } else {
        4
    }
}

/// Decompresses a bit-packed stream; see `bit_packed`.
pub fn decompress_bit_packing(
    compressed_data: &[u8],
    bits_compressed: u8,
    bits_decompressed: u8,
    sub_type: u8,
    add_value: u16,
    uncompressed_size: u32,
    decompression_table: Option<&[u8]>,
) -> (r: VgmResult<Vec<u8>>)
    requires
        !(bit_packed(
            BitPacking { bits_compressed, bits_decompressed, sub_type, add_value, size: uncompressed_size as nat },
            compressed_data@,
            table_view(decompression_table),
            0,
            Seq::empty(),
        ) is Undefined),
    ensures
        unpack_result(
            bit_packed(
                BitPacking { bits_compressed, bits_decompressed, sub_type, add_value, size: uncompressed_size as nat },
                compressed_data@,
                table_view(decompression_table),
                0,
                Seq::empty(),
            ),
            r,
            compressed_data@.len(),
            bits_compressed,
            sub_type,
            false,
        ),
        sub_type == 0 && r is Ok ==> forall|i: int|
            0 <= i < r->Ok_0@.len() ==> r->Ok_0@[i] == #[trigger] packed_byte(
                compressed_data@,
                bits_compressed,
                bits_decompressed,
                0,
                add_value,
                i,
            ),
        sub_type == 1 && r is Ok ==> forall|i: int|
            0 <= i < r->Ok_0@.len() ==> r->Ok_0@[i] == #[trigger] shifted_byte(
                compressed_data@,
                bits_compressed,
                bits_decompressed,
                add_value,
                i,
            ),
{
    proof {
        lemma_bit_packing_adds(
            compressed_data@,
            bits_compressed,
            bits_decompressed,
            add_value,
            uncompressed_size as nat,
            table_view(decompression_table),
        );
        lemma_bit_packing_shifts(
            compressed_data@,
            bits_compressed,
            bits_decompressed,
            add_value,
            uncompressed_size as nat,
            table_view(decompression_table),
        );
    }
    let ghost p = BitPacking { bits_compressed, bits_decompressed, sub_type, add_value, size: uncompressed_size as nat };
    let ghost data = compressed_data@;
    let ghost table = table_view(decompression_table);
    let ghost whole = bit_packed(p, data, table, 0, Seq::empty());
    let mut result: Vec<u8> = Vec::new();
    let mut bit_reader = BitReader::new(compressed_data);
    let bpv = bytes_per_value(bits_decompressed);
    let n = at_most_four(bpv);
    let size = uncompressed_size as usize;
    while result.len() < size
        invariant
            bit_reader.wf(),
            bit_reader.bytes() == data,
            data == compressed_data@,
            p == (BitPacking { bits_compressed, bits_decompressed, sub_type, add_value, size: uncompressed_size as nat }),
            table == table_view(decompression_table),
            whole == bit_packed(p, data, table, 0, Seq::empty()),
            !(whole is Undefined),
            size == p.size,
            bpv == value_bytes(bits_decompressed),
            bpv <= 32,
            n == written_bytes(bits_decompressed),
            result@.len() <= size,
            whole == bit_packed(p, data, table, bit_reader.pos(), result@),
        decreases (size - result@.len()) + (8 * data.len() - bit_reader.pos()),
    {
        let compressed_value = bit_reader.read_bits(bits_compressed)?;
        let decompressed_value: u32 = if sub_type == 0 {
            compressed_value as u32
        } else if sub_type == 1 {
            (compressed_value as u32) << ((bits_decompressed - bits_compressed) as u32)
        } else if sub_type == 2 {
            let table_bytes = match decompression_table {
                Some(t) => t,
                None => {
                    return Err(
                        VgmError::InvalidDataFormat {
                            field: String::from_str("decompression_table"),
                            details: String::from_str("Bit packing sub-type 0x02 requires a decompression table"),
                        },
                    );
                },
            };
            assert(compressed_value as usize * bpv <= 65535 * 32) by (nonlinear_arith)
                requires
                    compressed_value <= 65535,
                    bpv <= 32,
            ;
            let index = compressed_value as usize * bpv;
            if index + bpv > table_bytes.len() {
                return Err(table_index_error("Table index ", "table_index", index));
            }
            read_le_word(table_bytes, index, bpv)
        } else {
            let code = hex_byte_string(sub_type);
            return Err(
                VgmError::InvalidDataFormat {
                    field: String::from_str("bit_packing_sub_type"),
                    details: joined("Unknown bit packing sub-type: 0x", code.as_str()),
                },
            );
        };
        let final_value = if sub_type != 2 {
            decompressed_value.wrapping_add(add_value as u32)
        } else {
            decompressed_value
        };
        let remaining = size - result.len();
        let k = if n < remaining { n } else { remaining };
        push_word_bytes(&mut result, final_value, k);
    }
    Ok(result)
}

/// The delta that a table entry `d` of `bpv` bytes stands for.
fn delta_of(d: u32, bpv: usize) -> (r: u32)
    requires
        bpv >= 1,
    ensures
        r == dpcm_delta(d as nat, bpv as nat),
{
    if bpv < 4 {
        let (half, extension): (u32, u32) = if bpv == 1 {
            (0x80, 0xFFFF_FF00)
        } else if bpv == 2 {
            (0x8000, 0xFFFF_0000)
        } else {
            (0x80_0000, 0xFF00_0000)
        };
        if d >= half {
            d.wrapping_add(extension)
        } else {
            d
        }
    } else {
        d
    }
}

/// Decompresses a DPCM stream; see `dpcm`.
pub fn decompress_dpcm(
    compressed_data: &[u8],
    bits_compressed: u8,
    bits_decompressed: u8,
    start_value: u16,
    uncompressed_size: u32,
    decompression_table: &[u8],
) -> (r: VgmResult<Vec<u8>>)
    requires
        !(dpcm(
            bits_compressed,
            bits_decompressed,
            uncompressed_size as nat,
            compressed_data@,
            decompression_table@,
            0,
            start_value as u32,
            Seq::empty(),
        ) is Undefined),
    ensures
        unpack_result(
            dpcm(
                bits_compressed,
                bits_decompressed,
                uncompressed_size as nat,
                compressed_data@,
                decompression_table@,
                0,
                start_value as u32,
                Seq::empty(),
            ),
            r,
            compressed_data@.len(),
            bits_compressed,
            0,
            true,
        ),
{
    let ghost data = compressed_data@;
    let ghost table = decompression_table@;
    let ghost whole = dpcm(
        bits_compressed,
        bits_decompressed,
        uncompressed_size as nat,
        data,
        table,
        0,
        start_value as u32,
        Seq::empty(),
    );
    let mut result: Vec<u8> = Vec::new();
    let mut bit_reader = BitReader::new(compressed_data);
    let mut state: u32 = start_value as u32;
    let bpv = bytes_per_value(bits_decompressed);
    let n = at_most_four(bpv);
    let size = uncompressed_size as usize;
    while result.len() < size
        invariant
            bit_reader.wf(),
            bit_reader.bytes() == data,
            data == compressed_data@,
            table == decompression_table@,
            whole == dpcm(bits_compressed, bits_decompressed, uncompressed_size as nat, data, table, 0, start_value as u32, Seq::empty()),
            !(whole is Undefined),
            size == uncompressed_size,
            bpv == value_bytes(bits_decompressed),
            bpv <= 32,
            n == written_bytes(bits_decompressed),
            result@.len() <= size,
            whole == dpcm(bits_compressed, bits_decompressed, uncompressed_size as nat, data, table, bit_reader.pos(), state, result@),
        decreases size - result@.len(),
    {
        let index = bit_reader.read_bits(bits_compressed)?;
        assert(index as usize * bpv <= 65535 * 32) by (nonlinear_arith)
            requires
                index <= 65535,
                bpv <= 32,
        ;
        let table_index = index as usize * bpv;
        if table_index + bpv > decompression_table.len() {
            return Err(table_index_error("DPCM table index ", "dpcm_table_index", table_index));
        }
        let d = read_le_word(decompression_table, table_index, n);
        let delta = delta_of(d, bpv);
        state = state.wrapping_add(delta);
        let remaining = size - result.len();
        let k = if n < remaining { n } else { remaining };
        push_word_bytes(&mut result, state, k);
    }
    Ok(result)
}

/// The bytes of an optional table.
pub open spec fn table_view(t: Option<&[u8]>) -> Option<Seq<u8>> {
    match t {
        Some(s) => Some(s@),
        None => None,
    }
}

/// Whether decompressing `c` with `table` has a result.
pub open spec fn decompression_defined(c: DataBlockContent, table: Option<Seq<u8>>) -> bool {
    match c {
        DataBlockContent::CompressedStream { compression, uncompressed_size, data, .. } => match compression {
            CompressionType::BitPacking { bits_decompressed, bits_compressed, sub_type, add_value } => !(bit_packed(
                BitPacking { bits_compressed, bits_decompressed, sub_type, add_value, size: uncompressed_size as nat },
                data@,
                table,
                0,
                Seq::empty(),
            ) is Undefined),
            CompressionType::DPCM { bits_decompressed, bits_compressed, start_value } => table is Some ==> !(dpcm(
                bits_compressed,
                bits_decompressed,
                uncompressed_size as nat,
                data@,
                table->0,
                0,
                start_value as u32,
                Seq::empty(),
            ) is Undefined),
        },
        _ => true,
    }
}

/// What decompressing `c` with `table` gives: the data of an uncompressed
/// stream, the decompressed data of a compressed one, or an error.
pub open spec fn decompression_result(c: DataBlockContent, table: Option<Seq<u8>>, r: VgmResult<Vec<u8>>) -> bool {
    match c {
        DataBlockContent::UncompressedStream { data, .. } => r is Ok && r->Ok_0@ == data@,
        DataBlockContent::CompressedStream { compression, uncompressed_size, data, .. } => match compression {
            CompressionType::BitPacking { bits_decompressed, bits_compressed, sub_type, add_value } => unpack_result(
                bit_packed(
                    BitPacking { bits_compressed, bits_decompressed, sub_type, add_value, size: uncompressed_size as nat },
                    data@,
                    table,
                    0,
                    Seq::empty(),
                ),
                r,
                data@.len(),
                bits_compressed,
                sub_type,
                false,
            ),
            CompressionType::DPCM { bits_decompressed, bits_compressed, start_value } => match table {
                None => r is Err && is_format_error(
                    r->Err_0,
                    "decompression_table"@,
                    "DPCM decompression requires a decompression table"@,
                ),
                Some(t) => unpack_result(
                    dpcm(bits_compressed, bits_decompressed, uncompressed_size as nat, data@, t, 0, start_value as u32, Seq::empty()),
                    r,
                    data@.len(),
                    bits_compressed,
                    0,
                    true,
                ),
            },
        },
        _ => r is Err && is_format_error(r->Err_0, "data_block"@, "Cannot decompress non-stream data blocks"@),
    }
}

impl DataBlockContent {
    /// The data of a stream block: an uncompressed stream's data as it is, a
    /// compressed stream's data decompressed (with `decompression_table`
    /// where its compression needs one). Other blocks are refused.
    pub fn decompress_data(&self, decompression_table: Option<&[u8]>) -> (r: VgmResult<Vec<u8>>)
        requires
            decompression_defined(*self, table_view(decompression_table)),
        ensures
            decompression_result(*self, table_view(decompression_table), r),
    {
        match self {
            DataBlockContent::UncompressedStream { data, .. } => {
                let copy = data.clone();
                assert(copy@ =~= data@);
                Ok(copy)
            },
            DataBlockContent::CompressedStream { compression, uncompressed_size, data, .. } => {
                match compression {
                    CompressionType::BitPacking { bits_decompressed, bits_compressed, sub_type, add_value } => {
                        decompress_bit_packing(
                            data.as_slice(),
                            *bits_compressed,
                            *bits_decompressed,
                            *sub_type,
                            *add_value,
                            *uncompressed_size,
                            decompression_table,
                        )
                    },
                    CompressionType::DPCM { bits_decompressed, bits_compressed, start_value } => {
                        match decompression_table {
                            Some(table) => decompress_dpcm(
                                data.as_slice(),
                                *bits_compressed,
                                *bits_decompressed,
                                *start_value,
                                *uncompressed_size,
                                table,
                            ),
                            None => Err(
                                VgmError::InvalidDataFormat {
                                    field: String::from_str("decompression_table"),
                                    details: String::from_str("DPCM decompression requires a decompression table"),
                                },
                            ),
                        }
                    },
                }
            },
            _ => Err(
                VgmError::InvalidDataFormat {
                    field: String::from_str("data_block"),
                    details: String::from_str("Cannot decompress non-stream data blocks"),
                },
            ),
        }
    }
}

} // verus!

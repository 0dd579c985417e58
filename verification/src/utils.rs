//! Binary-coded decimal versions, UTF-16 text, magic bytes and gzip.

use crate::buffer::{bytes_mut_view, out_put_slice, u16_le_bytes};
use crate::errors::{VgmError, VgmResult};
use bytes::BytesMut;
use flate2::read::GzDecoder;
use std::io::Read;
use vstd::prelude::*;
use vstd::string::{StrSliceExecFns, StringExecFns};

verus! {

/// Gzip magic bytes (RFC 1952).
pub const GZIP_MAGIC: [u8; 2] = [0x1f, 0x8b];

/// VGM magic bytes ("Vgm ").
pub const VGM_MAGIC: [u8; 4] = [0x56, 0x67, 0x6d, 0x20];

/// The value of one BCD byte: its high nibble as tens, its low nibble as ones.
pub open spec fn bcd_digit(b: u8) -> nat {
    ((b / 16) * 10 + b % 16) as nat
}

/// The value of BCD bytes, least significant byte first.
pub open spec fn bcd_value(s: Seq<u8>) -> nat
    decreases s.len(),
{
    if s.len() == 0 {
        0
    } else {
        bcd_digit(s[0]) + 100 * bcd_value(s.drop_first())
    }
}

/// The BCD byte of a number below 100.
pub open spec fn bcd_byte(d: nat) -> u8 {
    ((d / 10) * 16 + d % 10) as u8
}

/// The BCD bytes of `n`, least significant first, without padding.
pub open spec fn bcd_digits(n: nat) -> Seq<u8>
    decreases n,
{
    if n == 0 {
        Seq::empty()
    } else {
        seq![bcd_byte(n % 100)] + bcd_digits(n / 100)
    }
}

/// The bytes that `decimal_to_bcd` gives: the BCD digits of `n`, then two zero bytes.
pub open spec fn bcd_encoding(n: nat) -> Seq<u8> {
    bcd_digits(n) + seq![0u8, 0u8]
}

/// The value of one BCD byte.
pub fn bcd_to_decimal(byte: u8) -> (v: u32)
    ensures
        v == bcd_digit(byte),
{
    assert((byte >> 4u8) == byte / 16 && (byte & 0x0F) == byte % 16) by (bit_vector);
    (((byte >> 4u8) * 10) + (byte & 0x0F)) as u32
}

/// Reads a BCD number, least significant byte first: `[0x51, 0x01, 0x00,
/// 0x00]` is 151.
pub fn bcd_from_bytes(bytes_list: &[u8]) -> (v: u32)
    requires
        bcd_value(bytes_list@) <= u32::MAX,
    ensures
        v == bcd_value(bytes_list@),
{
    let mut version: u32 = 0;
    let mut i: usize = bytes_list.len();
    while i > 0
        invariant
            i <= bytes_list@.len(),
            version == bcd_value(bytes_list@.skip(i as int)),
            bcd_value(bytes_list@) <= u32::MAX,
        decreases i,
    {
        i -= 1;
        proof {
            let t = bytes_list@.skip(i as int);
            assert(t.drop_first() =~= bytes_list@.skip(i + 1));
            lemma_bcd_value_prefix_bound(bytes_list@, i as int);
        }
        version = version * 100 + bcd_to_decimal(bytes_list[i]);
    }
    assert(bytes_list@.skip(0) =~= bytes_list@);
    version
}

/// The value of a suffix is at most the value of the whole.
proof fn lemma_bcd_value_prefix_bound(s: Seq<u8>, i: int)
    requires
        0 <= i <= s.len(),
    ensures
        bcd_value(s.skip(i)) <= bcd_value(s),
    decreases i,
{
    if i > 0 {
        lemma_bcd_value_prefix_bound(s.drop_first(), i - 1);
        assert(s.drop_first().skip(i - 1) =~= s.skip(i));
    } else {
        assert(s.skip(0) =~= s);
    }
}

/// The BCD bytes of `decimal`, least significant first, then two zero
/// bytes: 151 gives `[0x51, 0x01, 0x00, 0x00]`.
pub fn decimal_to_bcd(decimal: u32) -> (v: Vec<u8>)
    ensures
        v@ == bcd_encoding(decimal as nat),
{
    let mut bcd_bytes: Vec<u8> = Vec::new();
    let mut remaining = decimal;
    while remaining > 0
        invariant
            bcd_bytes@ + bcd_digits(remaining as nat) == bcd_digits(decimal as nat),
        decreases remaining,
    {
        let digit = remaining % 100;
        let bcd_byte_value = ((digit / 10) << 4u32) | (digit % 10);
        proof {
            assert(digit < 100 ==> ((digit / 10) << 4u32) | (digit % 10) == (digit / 10) * 16 + digit
                % 10) by (bit_vector);
        }
        bcd_bytes.push(bcd_byte_value as u8);
        proof {
            assert(bcd_digits(remaining as nat) =~= seq![bcd_byte(remaining as nat % 100)]
                + bcd_digits(remaining as nat / 100));
            assert(bcd_bytes@ + bcd_digits((remaining / 100) as nat) =~= bcd_digits(decimal as nat));
        }
        remaining /= 100;
    }
    bcd_bytes.push(0x00);
    bcd_bytes.push(0x00);
    assert(bcd_bytes@ =~= bcd_encoding(decimal as nat));
    bcd_bytes
}


proof fn lemma_bcd_byte(d: nat)
    requires
        d < 100,
    ensures
        bcd_digit(bcd_byte(d)) == d,
{
    let b = (d / 10) * 16 + d % 10;
    assert(b < 256) by (nonlinear_arith)
        requires
            d < 100,
            b == (d / 10) * 16 + d % 10,
    ;
    assert(b / 16 == d / 10 && b % 16 == d % 10) by (nonlinear_arith)
        requires
            d < 100,
            b == (d / 10) * 16 + d % 10,
    ;
}

proof fn lemma_bcd_digits_value(n: nat, t: Seq<u8>)
    requires
        bcd_value(t) == 0,
    ensures
        bcd_value(bcd_digits(n) + t) == n,
    decreases n,
{
    if n == 0 {
        assert(bcd_digits(n) + t =~= t);
    } else {
        lemma_bcd_digits_value(n / 100, t);
        lemma_bcd_byte(n % 100);
        let s = bcd_digits(n) + t;
        assert(s.drop_first() =~= bcd_digits(n / 100) + t);
    }
}

/// Reading back the BCD bytes of a number gives the number, for every `u32`.
pub proof fn lemma_bcd_round_trip(n: u32)
    ensures
        bcd_value(bcd_encoding(n as nat)) == n,
{
    let z = seq![0u8, 0u8];
    assert(z.drop_first().drop_first() =~= Seq::<u8>::empty());
    assert(bcd_value(z) == 0) by {
        reveal_with_fuel(bcd_value, 3);
    }
    lemma_bcd_digits_value(n as nat, z);
}


/// Whether `data` starts with the gzip magic bytes.
pub open spec fn starts_gzip(data: Seq<u8>) -> bool {
    data.len() >= 2 && data[0] == 0x1f && data[1] == 0x8b
}

/// Whether `data` starts with the VGM magic bytes "Vgm ".
pub open spec fn starts_vgm(data: Seq<u8>) -> bool {
    data.len() >= 4 && data[0] == 0x56 && data[1] == 0x67 && data[2] == 0x6d && data[3] == 0x20
}

/// Detects gzipped data by its magic bytes.
pub fn is_gzipped(data: &[u8]) -> (b: bool)
    ensures
        b == starts_gzip(data@),
{
    data.len() >= 2 && data[0] == GZIP_MAGIC[0] && data[1] == GZIP_MAGIC[1]
}

/// Detects VGM data by its magic bytes.
pub fn is_vgm(data: &[u8]) -> (b: bool)
    ensures
        b == starts_vgm(data@),
{
    data.len() >= 4 && data[0] == VGM_MAGIC[0] && data[1] == VGM_MAGIC[1] && data[2] == VGM_MAGIC[2]
        && data[3] == VGM_MAGIC[3]
}

/// What `flate2`'s `GzDecoder`, reading the gzip stream `data` to its end,
/// gives: the decompressed bytes, or the text of the I/O error it reports.
pub uninterp spec fn gzip_decoded(data: Seq<u8>) -> Result<Seq<u8>, Seq<char>>;

/// `flate2::read::GzDecoder::new(data)` read to its end with `Read::read_to_end`:
/// the decompressed bytes, or the `Display` text of the error. Nothing more
/// is claimed of either than that they are what the decoder gives for `data`.
#[verifier::external_body]
fn gzip_decode(data: &[u8]) -> (r: Result<Vec<u8>, String>)
    ensures
        match gzip_decoded(data@) {
            Ok(v) => r is Ok && r->Ok_0@ == v,
            Err(t) => r is Err && r->Err_0@ == t,
        },
{
    let mut decoder = GzDecoder::new(data);
    let mut decompressed = Vec::new();
    match decoder.read_to_end(&mut decompressed) {
        Ok(_) => Ok(decompressed),
        Err(e) => Err(e.to_string()),
    }
}

/// Whether `e` is an `InvalidDataFormat` error about `field` with the given details.
pub open spec fn is_format_error(e: VgmError, field: Seq<char>, details: Seq<char>) -> bool {
    e matches VgmError::InvalidDataFormat { field: f, details: d } && f@ == field && d@ == details
}

/// Decompresses gzipped data; data without the gzip magic bytes is refused.
pub fn decompress_gzip(compressed_data: &[u8]) -> (r: VgmResult<Vec<u8>>)
    ensures
        !starts_gzip(compressed_data@) ==> r is Err && is_format_error(
            r->Err_0,
            "gzip_header"@,
            "Data does not have valid gzip magic bytes"@,
        ),
        starts_gzip(compressed_data@) ==> match gzip_decoded(compressed_data@) {
            Ok(v) => r is Ok && r->Ok_0@ == v,
            Err(t) => r is Err && is_format_error(
                r->Err_0,
                "gzip_decompression"@,
                "Failed to decompress gzip data: "@ + t,
            ),
        },
{
    if !is_gzipped(compressed_data) {
        return Err(
            VgmError::InvalidDataFormat {
                field: String::from_str("gzip_header"),
                details: String::from_str("Data does not have valid gzip magic bytes"),
            },
        );
    }
    match gzip_decode(compressed_data) {
        Ok(decompressed) => Ok(decompressed),
        Err(text) => Err(
            VgmError::InvalidDataFormat {
                field: String::from_str("gzip_decompression"),
                details: String::from_str("Failed to decompress gzip data: ").concat(text.as_str()),
            },
        ),
    }
}

/// Returns the VGM data of a `.vgm` file as it is, or of a `.vgz` file
/// decompressed; anything else is refused.
pub fn detect_and_decompress(data: &[u8]) -> (r: VgmResult<Vec<u8>>)
    ensures
        starts_vgm(data@) ==> r is Ok && r->Ok_0@ == data@,
        !starts_vgm(data@) && !starts_gzip(data@) ==> r is Err && is_format_error(
            r->Err_0,
            "file_format"@,
            "File is neither a valid VGM nor VGZ (gzipped VGM) format"@,
        ),
        !starts_vgm(data@) && starts_gzip(data@) ==> match gzip_decoded(data@) {
            Ok(v) => if starts_vgm(v) {
                r is Ok && r->Ok_0@ == v
            } else {
                r is Err && is_format_error(
                    r->Err_0,
                    "decompressed_vgm"@,
                    "Decompressed data does not contain valid VGM magic bytes"@,
                )
            },
            Err(t) => r is Err && is_format_error(
                r->Err_0,
                "gzip_decompression"@,
                "Failed to decompress gzip data: "@ + t,
            ),
        },
{
    if is_vgm(data) {
        return Ok(vstd::slice::slice_to_vec(data));
    }
    if is_gzipped(data) {
        let decompressed = decompress_gzip(data)?;
        if !is_vgm(decompressed.as_slice()) {
            return Err(
                VgmError::InvalidDataFormat {
                    field: String::from_str("decompressed_vgm"),
                    details: String::from_str("Decompressed data does not contain valid VGM magic bytes"),
                },
            );
        }
        return Ok(decompressed);
    }
    Err(
        VgmError::InvalidDataFormat {
            field: String::from_str("file_format"),
            details: String::from_str("File is neither a valid VGM nor VGZ (gzipped VGM) format"),
        },
    )
}


/// The UTF-16 code units of a character.
pub open spec fn utf16_of_char(c: char) -> Seq<u16> {
    let v = c as u32;
    if v < 0x10000 {
        seq![v as u16]
    } else {
        seq![(0xD800 + ((v - 0x10000) as u32 >> 10u32)) as u16, (0xDC00 + ((v - 0x10000) as u32 & 0x3FFu32)) as u16]
    }
}

/// The UTF-16 code units of a text.
pub open spec fn utf16_units(s: Seq<char>) -> Seq<u16>
    decreases s.len(),
{
    if s.len() == 0 {
        Seq::empty()
    } else {
        utf16_units(s.drop_last()) + utf16_of_char(s.last())
    }
}

/// Code units as little-endian bytes.
pub open spec fn units_le_bytes(u: Seq<u16>) -> Seq<u8>
    decreases u.len(),
{
    if u.len() == 0 {
        Seq::empty()
    } else {
        units_le_bytes(u.drop_last()) + u16_le_bytes(u.last())
    }
}

/// The UTF-16 little-endian bytes of a text.
pub open spec fn utf16_le_bytes(s: Seq<char>) -> Seq<u8> {
    units_le_bytes(utf16_units(s))
}

pub(crate) proof fn lemma_units_le_bytes_append(a: Seq<u16>, b: Seq<u16>)
    ensures
        units_le_bytes(a + b) == units_le_bytes(a) + units_le_bytes(b),
    decreases b.len(),
{
    if b.len() == 0 {
        assert(a + b =~= a);
        assert(units_le_bytes(a) + units_le_bytes(b) =~= units_le_bytes(a));
    } else {
        lemma_units_le_bytes_append(a, b.drop_last());
        assert((a + b).drop_last() =~= a + b.drop_last());
        assert(units_le_bytes(a) + units_le_bytes(b) =~= units_le_bytes(a) + units_le_bytes(b.drop_last())
            + u16_le_bytes(b.last()));
    }
}

/// Appends the little-endian bytes of a code unit.
fn push_unit(out: &mut Vec<u8>, x: u16)
    ensures
        final(out)@ == old(out)@ + u16_le_bytes(x),
{
    out.push((x & 0xff) as u8);
    out.push(((x >> 8u16) & 0xff) as u8);
}

/// Appends `value` to `buffer` as UTF-16, little-endian.
pub fn write_string_as_u16_bytes(buffer: &mut BytesMut, value: &str)
    ensures
        bytes_mut_view(*final(buffer)) == bytes_mut_view(*old(buffer)) + utf16_le_bytes(value@),
{
    let n = value.unicode_len();
    let mut out: Vec<u8> = Vec::new();
    let mut i: usize = 0;
    while i < n
        invariant
            n == value@.len(),
            i <= n,
            out@ == utf16_le_bytes(value@.take(i as int)),
        decreases n - i,
    {
        let c = value.get_char(i);
        let v = c as u32;
        let ghost before = value@.take(i as int);
        proof {
            assert(value@.take(i + 1).drop_last() =~= before);
            lemma_units_le_bytes_append(utf16_units(before), utf16_of_char(c));
        }
        if v < 0x10000 {
            push_unit(&mut out, v as u16);
            proof {
                assert(units_le_bytes(seq![v as u16]) =~= u16_le_bytes(v as u16)) by {
                    assert(seq![v as u16].drop_last() =~= Seq::<u16>::empty());
                    assert(units_le_bytes(Seq::<u16>::empty()) == Seq::<u8>::empty());
                }
            }
        } else {
            let u = v - 0x10000;
            proof {
                assert(v <= 0x10FFFF);
                assert(u <= 0xFFFFF ==> (u >> 10u32) <= 0x3FF && (u & 0x3FF) <= 0x3FF) by (bit_vector);
            }
            let hi = (0xD800 + (u >> 10u32)) as u16;
            let lo = (0xDC00 + (u & 0x3FF)) as u16;
            push_unit(&mut out, hi);
            push_unit(&mut out, lo);
            proof {
                let pair = seq![hi, lo];
                assert(pair.drop_last() =~= seq![hi]);
                assert(seq![hi].drop_last() =~= Seq::<u16>::empty());
                assert(units_le_bytes(Seq::<u16>::empty()) == Seq::<u8>::empty());
                assert(units_le_bytes(seq![hi]) =~= u16_le_bytes(hi));
                assert(units_le_bytes(pair) =~= u16_le_bytes(hi) + u16_le_bytes(lo));
            }
        }
        i += 1;
    }
    assert(value@.take(n as int) =~= value@);
    out_put_slice(buffer, out.as_slice());
}


/// Whether a code unit is a leading (high) surrogate.
pub open spec fn is_high_surrogate(u: u16) -> bool {
    0xD800 <= u < 0xDC00
}

/// Whether a code unit is a trailing (low) surrogate.
pub open spec fn is_low_surrogate(u: u16) -> bool {
    0xDC00 <= u < 0xE000
}

/// Whether code units are well-formed UTF-16: every leading surrogate is
/// followed by a trailing one, and no trailing surrogate stands alone.
pub open spec fn utf16_valid(u: Seq<u16>) -> bool
    decreases u.len(),
{
    if u.len() == 0 {
        true
    } else if is_high_surrogate(u[0]) {
        u.len() >= 2 && is_low_surrogate(u[1]) && utf16_valid(u.skip(2))
    } else if is_low_surrogate(u[0]) {
        false
    } else {
        utf16_valid(u.drop_first())
    }
}

/// The character of a surrogate pair.
pub open spec fn surrogate_pair_char(hi: u16, lo: u16) -> char {
    (0x10000 + (hi - 0xD800) * 0x400 + (lo - 0xDC00)) as char
}

/// The characters of well-formed UTF-16 code units.
pub open spec fn utf16_decode(u: Seq<u16>) -> Seq<char>
    decreases u.len(),
{
    if u.len() == 0 {
        Seq::empty()
    } else if is_high_surrogate(u[0]) && u.len() >= 2 {
        seq![surrogate_pair_char(u[0], u[1])] + utf16_decode(u.skip(2))
    } else {
        seq![u[0] as char] + utf16_decode(u.drop_first())
    }
}

/// The units of a text are those of its first character, then those of the rest.
proof fn lemma_utf16_units_first(s: Seq<char>)
    requires
        s.len() > 0,
    ensures
        utf16_units(s) == utf16_of_char(s[0]) + utf16_units(s.drop_first()),
    decreases s.len(),
{
    if s.len() == 1 {
        assert(s.drop_last() =~= Seq::<char>::empty());
        assert(s.drop_first() =~= Seq::<char>::empty());
        assert(utf16_units(s) =~= utf16_of_char(s[0]) + utf16_units(s.drop_first()));
    } else {
        lemma_utf16_units_first(s.drop_last());
        assert(s.drop_last().drop_first() =~= s.drop_first().drop_last());
        assert(s.drop_first().last() == s.last());
        assert(utf16_units(s) =~= utf16_of_char(s[0]) + utf16_units(s.drop_first()));
    }
}

/// Decoding the units of a character followed by more units gives the
/// character, then the decoding of the rest; the units are well-formed
/// exactly when the rest is.
proof fn lemma_utf16_char_decodes(c: char, rest: Seq<u16>)
    ensures
        utf16_decode(utf16_of_char(c) + rest) == seq![c] + utf16_decode(rest),
        utf16_valid(utf16_of_char(c) + rest) == utf16_valid(rest),
{
    let u = utf16_of_char(c) + rest;
    let v = c as u32;
    if v < 0x10000 {
        assert(u[0] == v as u16);
        assert(u.drop_first() =~= rest);
        assert(!is_high_surrogate(u[0]) && !is_low_surrogate(u[0]));
        assert((v as u16) as char == c);
        assert(utf16_decode(u) =~= seq![c] + utf16_decode(rest));
    } else {
        let x = (v - 0x10000) as u32;
        assert(x <= 0xFFFFF ==> (x >> 10u32) <= 0x3FF && (x & 0x3FFu32) <= 0x3FF && (x >> 10u32) * 0x400 + (x
            & 0x3FFu32) == x) by (bit_vector);
        let hi = (0xD800 + (x >> 10u32)) as u16;
        let lo = (0xDC00 + (x & 0x3FFu32)) as u16;
        assert(u[0] == hi && u[1] == lo);
        assert(is_high_surrogate(hi) && is_low_surrogate(lo));
        assert(u.skip(2) =~= rest);
        assert(surrogate_pair_char(hi, lo) == c);
        assert(utf16_decode(u) =~= seq![c] + utf16_decode(rest));
    }
}

/// Encoding a text as UTF-16 gives well-formed units that decode to the text.
pub proof fn lemma_utf16_round_trip(s: Seq<char>)
    ensures
        utf16_valid(utf16_units(s)),
        utf16_decode(utf16_units(s)) == s,
    decreases s.len(),
{
    if s.len() > 0 {
        lemma_utf16_units_first(s);
        lemma_utf16_char_decodes(s[0], utf16_units(s.drop_first()));
        lemma_utf16_round_trip(s.drop_first());
        assert(seq![s[0]] + s.drop_first() =~= s);
    }
}

/// Whether a text holds no NUL character.
pub open spec fn nul_free(s: Seq<char>) -> bool {
    forall|i: int| 0 <= i < s.len() ==> s[i] as u32 != 0
}

/// The UTF-16 units of a character other than NUL are not zero.
proof fn lemma_char_units_nonzero(c: char)
    requires
        c as u32 != 0,
    ensures
        forall|j: int| 0 <= j < utf16_of_char(c).len() ==> utf16_of_char(c)[j] != 0,
{
    let v = c as u32;
    let w = utf16_of_char(c);
    if v >= 0x10000 {
        let x = (v - 0x10000) as u32;
        assert(v <= 0x10FFFF);
        assert(x <= 0xFFFFF ==> (x >> 10u32) <= 0x3FF && (x & 0x3FFu32) <= 0x3FF) by (bit_vector);
        assert(w.len() == 2 && w[0] != 0 && w[1] != 0);
    } else {
        assert(w.len() == 1 && w[0] == v as u16);
    }
}

/// The UTF-16 of a text without NUL characters has no zero unit.
pub proof fn lemma_utf16_units_nonzero(s: Seq<char>)
    requires
        nul_free(s),
    ensures
        forall|k: int| 0 <= k < utf16_units(s).len() ==> utf16_units(s)[k] != 0,
    decreases s.len(),
{
    if s.len() > 0 {
        let t = s.drop_last();
        assert(nul_free(t)) by {
            assert forall|i: int| 0 <= i < t.len() implies t[i] as u32 != 0 by {
                assert(t[i] == s[i]);
            }
        }
        lemma_utf16_units_nonzero(t);
        let c = s.last();
        assert(s[s.len() - 1] as u32 != 0);
        let w = utf16_of_char(c);
        lemma_char_units_nonzero(c);
        let u = utf16_units(s);
        assert(u == utf16_units(t) + w);
        assert forall|k: int| 0 <= k < u.len() implies u[k] != 0 by {
            if k < utf16_units(t).len() {
                assert(u[k] == utf16_units(t)[k]);
            } else {
                assert(u[k] == w[k - utf16_units(t).len()]);
            }
        }
    }
}

/// The text of the error with which `String::from_utf16` refuses `units`.
pub uninterp spec fn utf16_error_text(units: Seq<u16>) -> Seq<char>;

/// `String::from_utf16`: the decoded text of well-formed UTF-16, or, for
/// ill-formed code units, the `Display` text of the error, of which nothing
/// is claimed but that it is the one for these code units.
#[verifier::external_body]
pub(crate) fn string_from_utf16(v: &[u16]) -> (r: Result<String, String>)
    ensures
        utf16_valid(v@) ==> r is Ok && r->Ok_0@ == utf16_decode(v@),
        !utf16_valid(v@) ==> r is Err && r->Err_0@ == utf16_error_text(v@),
{
    match String::from_utf16(v) {
        Ok(s) => Ok(s),
        Err(e) => Err(e.to_string()),
    }
}

/// The text that `String::from_utf8_lossy` makes of `bytes`.
pub uninterp spec fn utf8_lossy_text(bytes: Seq<u8>) -> Seq<char>;

/// Characters whose code points are the given ASCII bytes.
pub open spec fn ascii_chars(bytes: Seq<u8>) -> Seq<char> {
    Seq::new(bytes.len(), |i: int| bytes[i] as char)
}

/// `String::from_utf8_lossy`, owned: the bytes read as UTF-8, with each
/// invalid sequence replaced by U+FFFD. Claimed: that the text is the one
/// for these bytes, and that ASCII bytes (valid UTF-8) read as themselves.
#[verifier::external_body]
pub(crate) fn string_from_utf8_lossy(bytes: &[u8]) -> (s: String)
    ensures
        s@ == utf8_lossy_text(bytes@),
        (forall|i: int| 0 <= i < bytes@.len() ==> #[trigger] bytes@[i] < 0x80) ==> s@ == ascii_chars(
            bytes@,
        ),
{
    String::from_utf8_lossy(bytes).to_string()
}

} // verus!

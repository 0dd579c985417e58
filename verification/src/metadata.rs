//! GD3 metadata: track information in UTF-16, at the end of a VGM file.

use crate::buffer::{
    buf_len, buf_to_vec, bytes_mut_view, bytes_view, le16, le32, lemma_le16_roundtrip, lemma_le32_roundtrip, out_len,
    out_overwrite, out_put_slice, seq_le32, u16_le_bytes, u32_le_bytes,
};
use crate::errors::{VgmError, VgmResult};
use crate::header::config_of;
use crate::parser_config::{is_size_error, ParserConfig};
use crate::text::joined;
use crate::utils::{
    lemma_units_le_bytes_append, lemma_utf16_round_trip, lemma_utf16_units_nonzero, nul_free, string_from_utf16,
    units_le_bytes, utf16_decode, utf16_error_text, utf16_le_bytes, utf16_units, utf16_valid,
    write_string_as_u16_bytes,
};
use bytes::{Bytes, BytesMut};
use vstd::prelude::*;
use vstd::string::StringExecFns;

verus! {

/// The texts of one language.
#[derive(Debug, PartialEq, Eq)]
pub struct Gd3LocaleData {
    pub track: String,
    pub game: String,
    pub system: String,
    pub author: String,
}

/// Texts tagged with their language.
#[derive(Debug, PartialEq, Eq)]
pub enum LanguageData {
    English(Gd3LocaleData),
    Japanese(Gd3LocaleData),
}

/// The GD3 metadata of a VGM file.
#[derive(Debug, PartialEq, Eq)]
pub struct VgmMetadata {
    pub english_data: Gd3LocaleData,
    pub japanese_data: Gd3LocaleData,
    pub date_release: String,
    pub name_vgm_creator: String,
    pub notes: String,
}

/// The UTF-16 code units of GD3 data: the little-endian pairs of bytes after
/// the 12 bytes of its header (an odd last byte is left out).
pub open spec fn gd3_units(s: Seq<u8>) -> Seq<u16> {
    Seq::new(((s.len() - 12) / 2) as nat, |k: int| le16(s[12 + 2 * k], s[13 + 2 * k]))
}

/// Code units split at each zero unit, starting with the field `cur`: each
/// zero ends a field; units after the last zero belong to no field.
pub open spec fn split_on_zero(u: Seq<u16>, cur: Seq<u16>) -> Seq<Seq<u16>>
    decreases u.len(),
{
    if u.len() == 0 {
        Seq::empty()
    } else if u[0] == 0 {
        seq![cur] + split_on_zero(u.drop_first(), Seq::empty())
    } else {
        split_on_zero(u.drop_first(), cur.push(u[0]))
    }
}

/// The fields of GD3 code units.
pub open spec fn gd3_fields(u: Seq<u16>) -> Seq<Seq<u16>> {
    split_on_zero(u, Seq::empty())
}

/// The number of code units that are not zero.
pub open spec fn nonzero_count(u: Seq<u16>) -> nat
    decreases u.len(),
{
    if u.len() == 0 {
        0
    } else {
        nonzero_count(u.drop_last()) + if u.last() != 0 {
            1nat
        } else {
            0nat
        }
    }
}

/// The index of the field that is decoded `k`th: the English track, the
/// Japanese track, and so on in pairs, then the release date, the VGM
/// creator and the notes.
pub open spec fn field_order(k: int) -> int {
    if k < 4 {
        2 * k
    } else if k < 8 {
        2 * (k - 4) + 1
    } else {
        k
    }
}

/// The name that errors give the `i`th field.
pub open spec fn field_name(i: int) -> Seq<char> {
    if i == 0 {
        "English track"@
    } else if i == 1 {
        "Japanese track"@
    } else if i == 2 {
        "English game"@
    } else if i == 3 {
        "Japanese game"@
    } else if i == 4 {
        "English system"@
    } else if i == 5 {
        "Japanese system"@
    } else if i == 6 {
        "English author"@
    } else if i == 7 {
        "Japanese author"@
    } else if i == 8 {
        "Release date"@
    } else if i == 9 {
        "VGM creator name"@
    } else {
        "Notes"@
    }
}


/// Whether a field passes: within the length limit, if any, and
/// well-formed UTF-16.
pub open spec fn field_ok(f: Seq<u16>, limit: Option<usize>) -> bool {
    (limit is None || f.len() <= limit->0) && utf16_valid(f)
}

/// The error with which the field at index `i` fails.
pub open spec fn field_error(f: Seq<u16>, i: int, limit: Option<usize>, e: VgmError) -> bool {
    if limit is Some && f.len() > limit->0 {
        is_size_error(e, field_name(i) + "_length"@, f.len() as int, limit->0 as int)
    } else {
        e matches VgmError::InvalidUtf16Encoding { field, details } && field@ == field_name(i)
            && details@ == utf16_error_text(f)
    }
}

/// The first place, from the `k`th on, in the order of decoding, whose field
/// fails (11 where none does).
pub open spec fn first_bad_field(fs: Seq<Seq<u16>>, limit: Option<usize>, k: int) -> int
    decreases 11 - k,
{
    if k >= 11 {
        11
    } else if !field_ok(fs[field_order(k)], limit) {
        k
    } else {
        first_bad_field(fs, limit, k + 1)
    }
}

/// The limit on one field's length under `config`, if any.
pub open spec fn field_limit(config: Option<ParserConfig>) -> Option<usize> {
    match config {
        Some(c) => Some(c.max_metadata_size / 4),
        None => None,
    }
}

/// Whether the version bytes are those of GD3 1.00.
pub open spec fn gd3_version_ok(s: Seq<u8>) -> bool {
    s[4] == 0 && s[5] == 1 && s[6] == 0 && s[7] == 0
}

/// The error for GD3 data with fewer than 11 fields.
pub open spec fn is_field_count_error(e: VgmError, count: nat) -> bool {
    e matches VgmError::InvalidDataLength { field, expected, actual } && field@
        == "GD3 metadata fields"@ && expected == 11 && actual == count
}

/// Whether reading metadata from `s` fails before its fields are decoded,
/// and then with what error (`config` `None`: without limits).
pub open spec fn gd3_early_error(s: Seq<u8>, config: Option<ParserConfig>, e: VgmError) -> bool {
    let n = s.len();
    let u = gd3_units(s);
    match config {
        Some(c) if n > c.max_metadata_size => is_size_error(
            e,
            "metadata_size"@,
            n as int,
            c.max_metadata_size as int,
        ),
        _ => if n < 8 {
            e == (VgmError::BufferUnderflow { offset: 0, needed: 8, available: n as usize })
        } else if !gd3_version_ok(s) {
            e matches VgmError::UnsupportedGd3Version { version, supported_versions } && version
                == le32(s[4], s[5], s[6], s[7]) && supported_versions@ == seq![0x100u32]
        } else if n < 12 {
            e == (VgmError::BufferUnderflow { offset: 8, needed: 4, available: (n - 8) as usize })
        } else {
            match config {
                Some(c) => if le32(s[8], s[9], s[10], s[11]) > c.max_metadata_size {
                    is_size_error(
                        e,
                        "metadata_data_length"@,
                        le32(s[8], s[9], s[10], s[11]) as int,
                        c.max_metadata_size as int,
                    )
                } else if (n - 12) % 2 != 0 {
                    e matches VgmError::InvalidDataFormat { field, details } && field@
                        == "UTF-16 metadata"@ && details@ == "UTF-16 data must have even byte count"@
                } else if n - 12 > c.max_metadata_size {
                    is_size_error(e, "metadata_utf16_size"@, n - 12, c.max_metadata_size as int)
                } else if nonzero_count(u) > c.max_metadata_size / 2 {
                    is_size_error(
                        e,
                        "metadata_total_characters"@,
                        c.max_metadata_size / 2 + 1,
                        (c.max_metadata_size / 2) as int,
                    )
                } else {
                    is_field_count_error(e, gd3_fields(u).len())
                },
                None => is_field_count_error(e, gd3_fields(u).len()),
            }
        },
    }
}

/// Whether reading metadata from `s` fails before its fields are decoded.
pub open spec fn gd3_fails_early(s: Seq<u8>, config: Option<ParserConfig>) -> bool {
    let n = s.len();
    let u = gd3_units(s);
    ||| (config is Some && n > config->0.max_metadata_size)
    ||| n < 12
    ||| !gd3_version_ok(s)
    ||| (config is Some && (le32(s[8], s[9], s[10], s[11]) > config->0.max_metadata_size || (n - 12)
        % 2 != 0 || n - 12 > config->0.max_metadata_size || nonzero_count(u)
        > config->0.max_metadata_size / 2))
    ||| gd3_fields(u).len() < 11
}

/// Whether `m` holds the decoded fields of `s`.
pub open spec fn metadata_read(m: VgmMetadata, s: Seq<u8>) -> bool {
    let fs = gd3_fields(gd3_units(s));
    &&& m.english_data.track@ == utf16_decode(fs[0])
    &&& m.japanese_data.track@ == utf16_decode(fs[1])
    &&& m.english_data.game@ == utf16_decode(fs[2])
    &&& m.japanese_data.game@ == utf16_decode(fs[3])
    &&& m.english_data.system@ == utf16_decode(fs[4])
    &&& m.japanese_data.system@ == utf16_decode(fs[5])
    &&& m.english_data.author@ == utf16_decode(fs[6])
    &&& m.japanese_data.author@ == utf16_decode(fs[7])
    &&& m.date_release@ == utf16_decode(fs[8])
    &&& m.name_vgm_creator@ == utf16_decode(fs[9])
    &&& m.notes@ == utf16_decode(fs[10])
}

/// What reading metadata from `s` gives: the fields where nothing fails,
/// otherwise the first error.
pub open spec fn metadata_result(s: Seq<u8>, config: Option<ParserConfig>, r: VgmResult<VgmMetadata>) -> bool {
    if gd3_fails_early(s, config) {
        r is Err && gd3_early_error(s, config, r->Err_0)
    } else {
        let fs = gd3_fields(gd3_units(s));
        let k = first_bad_field(fs, field_limit(config), 0);
        if k < 11 {
            r is Err && field_error(fs[field_order(k)], field_order(k), field_limit(config), r->Err_0)
        } else {
            r is Ok && metadata_read(r->Ok_0, s)
        }
    }
}


/// The code units of vectors.
pub open spec fn unit_views(acc: Seq<Vec<u16>>) -> Seq<Seq<u16>> {
    acc.map_values(|v: Vec<u16>| v@)
}

/// The code units after the 12 header bytes.
fn units_of(bytes: &Vec<u8>) -> (u: Vec<u16>)
    requires
        bytes@.len() >= 12,
    ensures
        u@ == gd3_units(bytes@),
{
    let n = bytes.len();
    let count = (n - 12) / 2;
    let mut u: Vec<u16> = Vec::new();
    let mut k: usize = 0;
    let mut pos: usize = 12;
    while k < count
        invariant
            count == (bytes@.len() - 12) / 2,
            k <= count,
            pos == 12 + 2 * k,
            pos <= bytes@.len(),
            n == bytes@.len(),
            u@ == gd3_units(bytes@).take(k as int),
        decreases count - k,
    {
        assert(pos + 1 < bytes@.len()) by (nonlinear_arith)
            requires
                k < count,
                count == (bytes@.len() - 12) / 2,
                pos == 12 + 2 * k,
                bytes@.len() >= 12,
        ;
        assert(pos + 2 <= bytes@.len());
        let lo = bytes[pos];
        let hi = bytes[pos + 1];
        u.push(((lo as u16) | ((hi as u16) << 8u16)) as u16);
        proof {
            assert(u@ =~= gd3_units(bytes@).take(k + 1));
        }
        k += 1;
        pos += 2;
    }
    assert(gd3_units(bytes@).take(count as int) =~= gd3_units(bytes@));
    u
}

/// Splits code units into fields at each zero unit; with a limit, more
/// units that are not zero than the limit are refused.
fn split_fields(units: &Vec<u16>, char_limit: Option<usize>) -> (r: VgmResult<Vec<Vec<u16>>>)
    requires
        char_limit is Some ==> char_limit->0 < usize::MAX,
    ensures
        char_limit is Some && nonzero_count(units@) > char_limit->0 ==> r is Err && is_size_error(
            r->Err_0,
            "metadata_total_characters"@,
            char_limit->0 + 1,
            char_limit->0 as int,
        ),
        !(char_limit is Some && nonzero_count(units@) > char_limit->0) ==> r is Ok && unit_views(
            r->Ok_0@,
        ) == gd3_fields(units@),
{
    let ghost u = units@;
    let mut temp: Vec<u16> = Vec::new();
    let mut acc: Vec<Vec<u16>> = Vec::new();
    let mut total_chars: usize = 0;
    let mut k: usize = 0;
    assert(u.skip(0) =~= u);
    assert(unit_views(acc@) + split_on_zero(u.skip(0), temp@) =~= gd3_fields(u));
    assert(u.take(0) =~= Seq::<u16>::empty());
    while k < units.len()
        invariant
            u == units@,
            char_limit is Some ==> char_limit->0 < usize::MAX,
            k <= u.len(),
            unit_views(acc@) + split_on_zero(u.skip(k as int), temp@) == gd3_fields(u),
            total_chars == nonzero_count(u.take(k as int)),
            char_limit is Some ==> total_chars <= char_limit->0,
            total_chars <= k,
        decreases u.len() - k,
    {
        let elem = units[k];
        proof {
            assert(u.skip(k as int).drop_first() =~= u.skip(k + 1));
            assert(u.take(k + 1).drop_last() =~= u.take(k as int));
            lemma_nonzero_count_prefix(u, k + 1);
        }
        if elem == 0x0000 {
            let ghost old_acc = unit_views(acc@);
            let ghost t = temp@;
            acc.push(temp);
            temp = Vec::new();
            proof {
                assert(unit_views(acc@) =~= old_acc.push(t));
                assert(unit_views(acc@) + split_on_zero(u.skip(k + 1), temp@) =~= old_acc + split_on_zero(
                    u.skip(k as int),
                    t,
                ));
            }
        } else {
            total_chars += 1;
            if let Some(limit) = char_limit {
                if total_chars > limit {
                    proof {
                        lemma_nonzero_count_grows(u, k + 1);
                    }
                    return Err(
                        VgmError::DataSizeExceedsLimit {
                            field: String::from_str("metadata_total_characters"),
                            size: total_chars,
                            limit,
                        },
                    );
                }
            }
            temp.push(elem);
        }
        k += 1;
    }
    proof {
        assert(u.skip(k as int).len() == 0);
        assert(u.take(k as int) =~= u);
        assert(unit_views(acc@) + split_on_zero(u.skip(k as int), temp@) =~= unit_views(acc@));
    }
    Ok(acc)
}

proof fn lemma_nonzero_count_prefix(u: Seq<u16>, k: int)
    requires
        0 < k <= u.len(),
    ensures
        nonzero_count(u.take(k)) == nonzero_count(u.take(k - 1)) + if u[k - 1] != 0 {
            1nat
        } else {
            0nat
        },
{
    assert(u.take(k).drop_last() =~= u.take(k - 1));
}

proof fn lemma_nonzero_count_grows(u: Seq<u16>, k: int)
    requires
        0 <= k <= u.len(),
    ensures
        nonzero_count(u.take(k)) <= nonzero_count(u),
    decreases u.len() - k,
{
    if k < u.len() {
        lemma_nonzero_count_grows(u, k + 1);
        lemma_nonzero_count_prefix(u, k + 1);
    } else {
        assert(u.take(k) =~= u);
    }
}


/// Where the fields before the `k`th (in decoding order) pass, the first
/// failing field is the first from the `k`th on.
proof fn lemma_first_bad_from(fs: Seq<Seq<u16>>, limit: Option<usize>, k: int)
    requires
        0 <= k <= 11,
        forall|j: int| 0 <= j < k ==> field_ok(#[trigger] fs[field_order(j)], limit),
    ensures
        first_bad_field(fs, limit, 0) == first_bad_field(fs, limit, k),
    decreases k,
{
    if k > 0 {
        lemma_first_bad_from(fs, limit, k - 1);
    }
}

/// Decodes one field, within the length limit if there is one.
fn decode_field(f: &Vec<u16>, name: &str, limit: Option<usize>) -> (r: VgmResult<String>)
    ensures
        field_ok(f@, limit) ==> r is Ok && r->Ok_0@ == utf16_decode(f@),
        !field_ok(f@, limit) ==> r is Err && if limit is Some && f@.len() > limit->0 {
            is_size_error(r->Err_0, name@ + "_length"@, f@.len() as int, limit->0 as int)
        } else {
            r->Err_0 matches VgmError::InvalidUtf16Encoding { field, details } && field@ == name@
                && details@ == utf16_error_text(f@)
        },
{
    if let Some(max) = limit {
        if f.len() > max {
            return Err(
                VgmError::DataSizeExceedsLimit {
                    field: joined(name, "_length"),
                    size: f.len(),
                    limit: max,
                },
            );
        }
    }
    match string_from_utf16(f.as_slice()) {
        Ok(text) => Ok(text),
        Err(details) => Err(VgmError::InvalidUtf16Encoding { field: String::from_str(name), details }),
    }
}

/// Reads GD3 metadata, without or within limits; the bytes are not consumed.
#[verifier::rlimit(50)]
fn read_metadata(data: &Bytes, config: Option<&ParserConfig>) -> (r: VgmResult<VgmMetadata>)
    ensures
        metadata_result(bytes_view(*data), config_of(config), r),
{
    let ghost s = bytes_view(*data);
    let n = buf_len(data);
    if let Some(c) = config {
        c.check_metadata_size(n)?;
    }
    if n < 8 {
        return Err(VgmError::BufferUnderflow { offset: 0, needed: 8, available: n });
    }
    let bytes = buf_to_vec(data);
    if !(bytes[4] == 0 && bytes[5] == 1 && bytes[6] == 0 && bytes[7] == 0) {
        let version = (bytes[4] as u32) | ((bytes[5] as u32) << 8u32) | ((bytes[6] as u32) << 16u32) | ((
        bytes[7] as u32) << 24u32);
        let mut supported_versions: Vec<u32> = Vec::new();
        supported_versions.push(0x00000100);
        assert(supported_versions@ =~= seq![0x100u32]);
        return Err(VgmError::UnsupportedGd3Version { version, supported_versions });
    }
    if n < 12 {
        return Err(VgmError::BufferUnderflow { offset: 8, needed: 4, available: n - 8 });
    }
    if let Some(c) = config {
        let data_length = (bytes[8] as u32) | ((bytes[9] as u32) << 8u32) | ((bytes[10] as u32) << 16u32)
            | ((bytes[11] as u32) << 24u32);
        if data_length as usize > c.max_metadata_size {
            return Err(
                VgmError::DataSizeExceedsLimit {
                    field: String::from_str("metadata_data_length"),
                    size: data_length as usize,
                    limit: c.max_metadata_size,
                },
            );
        }
        let utf16_data_size = n - 12;
        if utf16_data_size % 2 != 0 {
            return Err(
                VgmError::InvalidDataFormat {
                    field: String::from_str("UTF-16 metadata"),
                    details: String::from_str("UTF-16 data must have even byte count"),
                },
            );
        }
        let expected_u16_count = utf16_data_size / 2;
        if expected_u16_count * 2 > c.max_metadata_size {
            return Err(
                VgmError::DataSizeExceedsLimit {
                    field: String::from_str("metadata_utf16_size"),
                    size: expected_u16_count * 2,
                    limit: c.max_metadata_size,
                },
            );
        }
    }
    let units = units_of(&bytes);
    let char_limit: Option<usize> = match config {
        Some(c) => Some(c.max_metadata_size / 2),
        None => None,
    };
    let acc = split_fields(&units, char_limit)?;
    if acc.len() < 11 {
        return Err(
            VgmError::InvalidDataLength {
                field: String::from_str("GD3 metadata fields"),
                expected: 11,
                actual: acc.len(),
            },
        );
    }
    let field_limit: Option<usize> = match config {
        Some(c) => Some(c.max_metadata_size / 4),
        None => None,
    };
    let ghost fs = gd3_fields(gd3_units(s));
    let ghost limit_spec = field_limit;
    assert(forall|i: int| 0 <= i < acc@.len() ==> acc@[i]@ == #[trigger] fs[i]);
    proof {
        lemma_first_bad_from(fs, limit_spec, 0);
    }
    let eng_track = decode_field(&acc[0], "English track", field_limit)?;
    proof {
        lemma_first_bad_from(fs, limit_spec, 1);
    }
    let eng_game = decode_field(&acc[2], "English game", field_limit)?;
    proof {
        lemma_first_bad_from(fs, limit_spec, 2);
    }
    let eng_system = decode_field(&acc[4], "English system", field_limit)?;
    proof {
        lemma_first_bad_from(fs, limit_spec, 3);
    }
    let eng_author = decode_field(&acc[6], "English author", field_limit)?;
    proof {
        lemma_first_bad_from(fs, limit_spec, 4);
    }
    let jap_track = decode_field(&acc[1], "Japanese track", field_limit)?;
    proof {
        lemma_first_bad_from(fs, limit_spec, 5);
    }
    let jap_game = decode_field(&acc[3], "Japanese game", field_limit)?;
    proof {
        lemma_first_bad_from(fs, limit_spec, 6);
    }
    let jap_system = decode_field(&acc[5], "Japanese system", field_limit)?;
    proof {
        lemma_first_bad_from(fs, limit_spec, 7);
    }
    let jap_author = decode_field(&acc[7], "Japanese author", field_limit)?;
    proof {
        lemma_first_bad_from(fs, limit_spec, 8);
    }
    let date_release = decode_field(&acc[8], "Release date", field_limit)?;
    proof {
        lemma_first_bad_from(fs, limit_spec, 9);
    }
    let name_vgm_creator = decode_field(&acc[9], "VGM creator name", field_limit)?;
    proof {
        lemma_first_bad_from(fs, limit_spec, 10);
    }
    let notes = decode_field(&acc[10], "Notes", field_limit)?;
    proof {
        lemma_first_bad_from(fs, limit_spec, 11);
    }
    Ok(
        VgmMetadata {
            english_data: Gd3LocaleData {
                track: eng_track,
                game: eng_game,
                system: eng_system,
                author: eng_author,
            },
            japanese_data: Gd3LocaleData {
                track: jap_track,
                game: jap_game,
                system: jap_system,
                author: jap_author,
            },
            date_release,
            name_vgm_creator,
            notes,
        },
    )
}


/// The texts of metadata in the order in which they are written, each as
/// UTF-16 with a zero terminator.
pub open spec fn gd3_body(m: VgmMetadata) -> Seq<u8> {
    utf16_le_bytes(m.english_data.track@) + seq![0u8, 0u8] + utf16_le_bytes(m.japanese_data.track@) + seq![0u8, 0u8] + utf16_le_bytes(m.english_data.game@) + seq![0u8, 0u8] + utf16_le_bytes(m.japanese_data.game@) + seq![0u8, 0u8] + utf16_le_bytes(m.english_data.system@) + seq![0u8, 0u8] + utf16_le_bytes(m.japanese_data.system@) + seq![0u8, 0u8] + utf16_le_bytes(m.english_data.author@) + seq![0u8, 0u8] + utf16_le_bytes(m.japanese_data.author@) + seq![0u8, 0u8] + utf16_le_bytes(m.date_release@) + seq![0u8, 0u8] + utf16_le_bytes(m.name_vgm_creator@) + seq![0u8, 0u8] + utf16_le_bytes(m.notes@) + seq![0u8, 0u8]
}

/// The bytes of written metadata: "Gd3 ", version 1.00, the length of the
/// texts (its low 32 bits), then the texts.
pub open spec fn gd3_bytes(m: VgmMetadata) -> Seq<u8> {
    seq![0x47u8, 0x64u8, 0x33u8, 0x20u8, 0x00u8, 0x01u8, 0x00u8, 0x00u8] + u32_le_bytes(
        gd3_body(m).len() as u32,
    ) + gd3_body(m)
}

impl VgmMetadata {
    /// Reads GD3 metadata: version 1.00, then eleven zero-terminated UTF-16
    /// texts. The bytes are not consumed.
    pub fn from_bytes(data: &mut Bytes) -> (r: VgmResult<VgmMetadata>)
        ensures
            bytes_view(*final(data)) == bytes_view(*old(data)),
            metadata_result(bytes_view(*old(data)), None, r),
    {
        read_metadata(data, None)
    }

    /// Reads GD3 metadata within the limits of `config`. The bytes are not consumed.
    pub fn from_bytes_with_config(data: &mut Bytes, config: &ParserConfig) -> (r: VgmResult<VgmMetadata>)
        ensures
            bytes_view(*final(data)) == bytes_view(*old(data)),
            metadata_result(bytes_view(*old(data)), Some(*config), r),
    {
        read_metadata(data, Some(config))
    }

    /// Appends the eleven texts, each as UTF-16 with a zero terminator.
    #[verifier::spinoff_prover]
    fn write_texts(&self, buffer: &mut BytesMut)
        ensures
            bytes_mut_view(*final(buffer)) == bytes_mut_view(*old(buffer)) + gd3_body(*self),
    {
        let terminator: Vec<u8> = vec![0x00, 0x00];
        let ghost before_body = bytes_mut_view(*buffer);
        let ghost mut body: Seq<u8> = Seq::empty();
        write_string_as_u16_bytes(buffer, self.english_data.track.as_str());
        proof {
            assert(bytes_mut_view(*buffer) =~= before_body + (body + utf16_le_bytes(self.english_data.track@)));
            body = body + utf16_le_bytes(self.english_data.track@);
        }
        out_put_slice(buffer, terminator.as_slice());
        proof {
            assert(bytes_mut_view(*buffer) =~= before_body + (body + seq![0u8, 0u8]));
            body = body + seq![0u8, 0u8];
        }
        write_string_as_u16_bytes(buffer, self.japanese_data.track.as_str());
        proof {
            assert(bytes_mut_view(*buffer) =~= before_body + (body + utf16_le_bytes(self.japanese_data.track@)));
            body = body + utf16_le_bytes(self.japanese_data.track@);
        }
        out_put_slice(buffer, terminator.as_slice());
        proof {
            assert(bytes_mut_view(*buffer) =~= before_body + (body + seq![0u8, 0u8]));
            body = body + seq![0u8, 0u8];
        }
        write_string_as_u16_bytes(buffer, self.english_data.game.as_str());
        proof {
            assert(bytes_mut_view(*buffer) =~= before_body + (body + utf16_le_bytes(self.english_data.game@)));
            body = body + utf16_le_bytes(self.english_data.game@);
        }
        out_put_slice(buffer, terminator.as_slice());
        proof {
            assert(bytes_mut_view(*buffer) =~= before_body + (body + seq![0u8, 0u8]));
            body = body + seq![0u8, 0u8];
        }
        write_string_as_u16_bytes(buffer, self.japanese_data.game.as_str());
        proof {
            assert(bytes_mut_view(*buffer) =~= before_body + (body + utf16_le_bytes(self.japanese_data.game@)));
            body = body + utf16_le_bytes(self.japanese_data.game@);
        }
        out_put_slice(buffer, terminator.as_slice());
        proof {
            assert(bytes_mut_view(*buffer) =~= before_body + (body + seq![0u8, 0u8]));
            body = body + seq![0u8, 0u8];
        }
        write_string_as_u16_bytes(buffer, self.english_data.system.as_str());
        proof {
            assert(bytes_mut_view(*buffer) =~= before_body + (body + utf16_le_bytes(self.english_data.system@)));
            body = body + utf16_le_bytes(self.english_data.system@);
        }
        out_put_slice(buffer, terminator.as_slice());
        proof {
            assert(bytes_mut_view(*buffer) =~= before_body + (body + seq![0u8, 0u8]));
            body = body + seq![0u8, 0u8];
        }
        write_string_as_u16_bytes(buffer, self.japanese_data.system.as_str());
        proof {
            assert(bytes_mut_view(*buffer) =~= before_body + (body + utf16_le_bytes(self.japanese_data.system@)));
            body = body + utf16_le_bytes(self.japanese_data.system@);
        }
        out_put_slice(buffer, terminator.as_slice());
        proof {
            assert(bytes_mut_view(*buffer) =~= before_body + (body + seq![0u8, 0u8]));
            body = body + seq![0u8, 0u8];
        }
        write_string_as_u16_bytes(buffer, self.english_data.author.as_str());
        proof {
            assert(bytes_mut_view(*buffer) =~= before_body + (body + utf16_le_bytes(self.english_data.author@)));
            body = body + utf16_le_bytes(self.english_data.author@);
        }
        out_put_slice(buffer, terminator.as_slice());
        proof {
            assert(bytes_mut_view(*buffer) =~= before_body + (body + seq![0u8, 0u8]));
            body = body + seq![0u8, 0u8];
        }
        write_string_as_u16_bytes(buffer, self.japanese_data.author.as_str());
        proof {
            assert(bytes_mut_view(*buffer) =~= before_body + (body + utf16_le_bytes(self.japanese_data.author@)));
            body = body + utf16_le_bytes(self.japanese_data.author@);
        }
        out_put_slice(buffer, terminator.as_slice());
        proof {
            assert(bytes_mut_view(*buffer) =~= before_body + (body + seq![0u8, 0u8]));
            body = body + seq![0u8, 0u8];
        }
        write_string_as_u16_bytes(buffer, self.date_release.as_str());
        proof {
            assert(bytes_mut_view(*buffer) =~= before_body + (body + utf16_le_bytes(self.date_release@)));
            body = body + utf16_le_bytes(self.date_release@);
        }
        out_put_slice(buffer, terminator.as_slice());
        proof {
            assert(bytes_mut_view(*buffer) =~= before_body + (body + seq![0u8, 0u8]));
            body = body + seq![0u8, 0u8];
        }
        write_string_as_u16_bytes(buffer, self.name_vgm_creator.as_str());
        proof {
            assert(bytes_mut_view(*buffer) =~= before_body + (body + utf16_le_bytes(self.name_vgm_creator@)));
            body = body + utf16_le_bytes(self.name_vgm_creator@);
        }
        out_put_slice(buffer, terminator.as_slice());
        proof {
            assert(bytes_mut_view(*buffer) =~= before_body + (body + seq![0u8, 0u8]));
            body = body + seq![0u8, 0u8];
        }
        write_string_as_u16_bytes(buffer, self.notes.as_str());
        proof {
            assert(bytes_mut_view(*buffer) =~= before_body + (body + utf16_le_bytes(self.notes@)));
            body = body + utf16_le_bytes(self.notes@);
        }
        out_put_slice(buffer, terminator.as_slice());
        proof {
            assert(bytes_mut_view(*buffer) =~= before_body + (body + seq![0u8, 0u8]));
            body = body + seq![0u8, 0u8];
        }
        assert(body =~= gd3_body(*self));
    }

    /// Appends the metadata in GD3 form.
    #[verifier::spinoff_prover]
    pub fn to_bytes(&self, buffer: &mut BytesMut) -> (r: VgmResult<()>)
        ensures
            r is Ok,
            bytes_mut_view(*final(buffer)) == bytes_mut_view(*old(buffer)) + gd3_bytes(*self),
            ({
                let b = bytes_mut_view(*final(buffer)).skip(bytes_mut_view(*old(buffer)).len() as int);
                &&& b.len() >= 12
                &&& seq_le32(b, 8) == (b.len() - 12) as u32
            }),
    {
        let ghost start = bytes_mut_view(*buffer);
        let head: Vec<u8> = vec![0x47, 0x64, 0x33, 0x20, 0x00, 0x01, 0x00, 0x00];
        out_put_slice(buffer, head.as_slice());
        let index_length = out_len(buffer);
        let placeholder: Vec<u8> = vec![0x00, 0x00, 0x00, 0x00];
        out_put_slice(buffer, placeholder.as_slice());
        let ghost before_body = bytes_mut_view(*buffer);
        self.write_texts(buffer);
        let total = out_len(buffer);
        if index_length + 4 > total {
            return Err(
                VgmError::BufferUnderflow {
                    offset: index_length,
                    needed: 4,
                    available: total - index_length,
                },
            );
        }
        let data_length = (total - (index_length + 4)) as u32;
        let length_bytes: Vec<u8> = vec![
            (data_length & 0xff) as u8,
            ((data_length >> 8u32) & 0xff) as u8,
            ((data_length >> 16u32) & 0xff) as u8,
            ((data_length >> 24u32) & 0xff) as u8,
        ];
        let ghost body = gd3_body(*self);
        assert(before_body == start + seq![0x47u8, 0x64u8, 0x33u8, 0x20u8, 0x00u8, 0x01u8, 0x00u8, 0x00u8]
            + seq![0u8, 0u8, 0u8, 0u8]);
        assert(data_length == body.len() as u32);
        out_overwrite(buffer, index_length, length_bytes.as_slice());
        assert(bytes_mut_view(*buffer) =~= start + gd3_bytes(*self));
        proof {
            lemma_gd3_length_field(*self);
            assert(bytes_mut_view(*buffer).skip(start.len() as int) =~= gd3_bytes(*self));
        }
        Ok(())
    }
}


/// The eleven texts of metadata, in the order in which they are written.
pub open spec fn written_texts(m: VgmMetadata) -> Seq<Seq<char>> {
    seq![
        m.english_data.track@,
        m.japanese_data.track@,
        m.english_data.game@,
        m.japanese_data.game@,
        m.english_data.system@,
        m.japanese_data.system@,
        m.english_data.author@,
        m.japanese_data.author@,
        m.date_release@,
        m.name_vgm_creator@,
        m.notes@,
    ]
}

/// The code units of texts, each followed by a zero unit.
pub open spec fn terminated_units(ts: Seq<Seq<char>>) -> Seq<u16>
    decreases ts.len(),
{
    if ts.len() == 0 {
        Seq::empty()
    } else {
        terminated_units(ts.drop_last()) + utf16_units(ts.last()) + seq![0u16]
    }
}

/// The bytes of texts, each as UTF-16 followed by a zero unit.
pub open spec fn terminated_bytes(ts: Seq<Seq<char>>) -> Seq<u8>
    decreases ts.len(),
{
    if ts.len() == 0 {
        Seq::empty()
    } else {
        terminated_bytes(ts.drop_last()) + utf16_le_bytes(ts.last()) + seq![0u8, 0u8]
    }
}

proof fn lemma_body_is_terminated(m: VgmMetadata)
    ensures
        gd3_body(m) == terminated_bytes(written_texts(m)),
{
    let ts = written_texts(m);
    reveal_with_fuel(terminated_bytes, 12);
    assert(ts.take(0) =~= Seq::<Seq<char>>::empty());
    assert(ts.take(1).drop_last() =~= ts.take(0));
    assert(ts.take(2).drop_last() =~= ts.take(1));
    assert(ts.take(3).drop_last() =~= ts.take(2));
    assert(ts.take(4).drop_last() =~= ts.take(3));
    assert(ts.take(5).drop_last() =~= ts.take(4));
    assert(ts.take(6).drop_last() =~= ts.take(5));
    assert(ts.take(7).drop_last() =~= ts.take(6));
    assert(ts.take(8).drop_last() =~= ts.take(7));
    assert(ts.take(9).drop_last() =~= ts.take(8));
    assert(ts.take(10).drop_last() =~= ts.take(9));
    assert(ts.take(11).drop_last() =~= ts.take(10));
    assert(ts.take(11) =~= ts);
    assert(gd3_body(m) =~= terminated_bytes(ts));
}

proof fn lemma_terminated_bytes_are_units(ts: Seq<Seq<char>>)
    ensures
        terminated_bytes(ts) == units_le_bytes(terminated_units(ts)),
    decreases ts.len(),
{
    if ts.len() > 0 {
        lemma_terminated_bytes_are_units(ts.drop_last());
        let a = terminated_units(ts.drop_last());
        let b = utf16_units(ts.last());
        lemma_units_le_bytes_append(a, b);
        lemma_units_le_bytes_append(a + b, seq![0u16]);
        assert(seq![0u16].drop_last() =~= Seq::<u16>::empty());
        assert(u16_le_bytes(0u16) =~= seq![0u8, 0u8]) by {
            assert((0u16 & 0xff) as u8 == 0 && ((0u16 >> 8u16) & 0xff) as u8 == 0) by (bit_vector);
        }
        assert(units_le_bytes(Seq::<u16>::empty()) == Seq::<u8>::empty());
        assert(units_le_bytes(seq![0u16]) =~= seq![0u8, 0u8]);
    }
}

/// Code units written little-endian read back pair by pair.
proof fn lemma_units_read_back(u: Seq<u16>)
    ensures
        units_le_bytes(u).len() == 2 * u.len(),
        forall|k: int|
            0 <= k < u.len() ==> le16(#[trigger] units_le_bytes(u)[2 * k], units_le_bytes(u)[2 * k + 1]) == u[k],
    decreases u.len(),
{
    if u.len() > 0 {
        let p = u.drop_last();
        lemma_units_read_back(p);
        lemma_le16_roundtrip(u.last());
        let b = units_le_bytes(u);
        assert(b == units_le_bytes(p) + u16_le_bytes(u.last()));
        assert forall|k: int| 0 <= k < u.len() implies le16(#[trigger] b[2 * k], b[2 * k + 1]) == u[k] by {
            if k < p.len() {
                assert(b[2 * k] == units_le_bytes(p)[2 * k]);
                assert(b[2 * k + 1] == units_le_bytes(p)[2 * k + 1]);
                assert(u[k] == p[k]);
            }
        }
    }
}

/// Splitting units that start with a field without zero units, ended by a
/// zero unit, gives that field first.
proof fn lemma_split_segment(a: Seq<u16>, r: Seq<u16>, cur: Seq<u16>)
    requires
        forall|k: int| 0 <= k < a.len() ==> a[k] != 0,
    ensures
        split_on_zero(a + seq![0u16] + r, cur) == seq![cur + a] + split_on_zero(r, Seq::empty()),
    decreases a.len(),
{
    let u = a + seq![0u16] + r;
    if a.len() == 0 {
        assert(u.drop_first() =~= r);
        assert(cur + a =~= cur);
    } else {
        assert(u[0] == a[0]);
        assert(u.drop_first() =~= a.drop_first() + seq![0u16] + r);
        lemma_split_segment(a.drop_first(), r, cur.push(a[0]));
        assert(cur.push(a[0]) + a.drop_first() =~= cur + a);
    }
}

/// Splitting the units of texts without NUL characters gives the texts' units.
proof fn lemma_split_terminated(ts: Seq<Seq<char>>, rest: Seq<u16>)
    requires
        forall|i: int| 0 <= i < ts.len() ==> nul_free(#[trigger] ts[i]),
    ensures
        split_on_zero(terminated_units(ts) + rest, Seq::empty()) == ts.map_values(|t: Seq<char>| utf16_units(t))
            + split_on_zero(rest, Seq::empty()),
    decreases ts.len(),
{
    if ts.len() > 0 {
        let head = ts[0];
        let tail = ts.drop_first();
        assert(nul_free(head));
        lemma_utf16_units_nonzero(head);
        assert forall|i: int| 0 <= i < tail.len() implies nul_free(#[trigger] tail[i]) by {
            assert(tail[i] == ts[i + 1]);
        }
        lemma_terminated_first(ts);
        lemma_split_terminated(tail, rest);
        assert(terminated_units(ts) + rest =~= utf16_units(head) + seq![0u16] + (terminated_units(tail) + rest));
        lemma_split_segment(utf16_units(head), terminated_units(tail) + rest, Seq::empty());
        assert(Seq::<u16>::empty() + utf16_units(head) =~= utf16_units(head));
        assert(ts.map_values(|t: Seq<char>| utf16_units(t)) =~= seq![utf16_units(head)] + tail.map_values(
            |t: Seq<char>| utf16_units(t),
        ));
    }
}

/// The terminated units of texts are those of the first text, a zero unit,
/// then those of the others.
proof fn lemma_terminated_first(ts: Seq<Seq<char>>)
    requires
        ts.len() > 0,
    ensures
        terminated_units(ts) == utf16_units(ts[0]) + seq![0u16] + terminated_units(ts.drop_first()),
    decreases ts.len(),
{
    if ts.len() == 1 {
        assert(ts.drop_last() =~= Seq::<Seq<char>>::empty());
        assert(ts.drop_first() =~= Seq::<Seq<char>>::empty());
        assert(terminated_units(ts) =~= utf16_units(ts[0]) + seq![0u16] + terminated_units(ts.drop_first()));
    } else {
        lemma_terminated_first(ts.drop_last());
        assert(ts.drop_last().drop_first() =~= ts.drop_first().drop_last());
        assert(ts.drop_first().last() == ts.last());
        assert(terminated_units(ts) =~= utf16_units(ts[0]) + seq![0u16] + terminated_units(ts.drop_first()));
    }
}

/// No field fails from the `k`th on where all eleven fields are well-formed UTF-16.
proof fn lemma_no_bad_field(fs: Seq<Seq<u16>>, k: int)
    requires
        fs.len() >= 11,
        forall|i: int| 0 <= i < 11 ==> utf16_valid(#[trigger] fs[i]),
        0 <= k <= 11,
    ensures
        first_bad_field(fs, None, k) == 11,
    decreases 11 - k,
{
    if k < 11 {
        assert(utf16_valid(fs[field_order(k)]));
        lemma_no_bad_field(fs, k + 1);
    }
}

/// The code units of written metadata are those of its texts, each ended by a zero unit.
proof fn lemma_written_units(m: VgmMetadata)
    ensures
        gd3_bytes(m).len() >= 12,
        gd3_version_ok(gd3_bytes(m)),
        gd3_units(gd3_bytes(m)) == terminated_units(written_texts(m)),
{
    let ts = written_texts(m);
    let s = gd3_bytes(m);
    let u = terminated_units(ts);
    lemma_body_is_terminated(m);
    lemma_terminated_bytes_are_units(ts);
    lemma_units_read_back(u);
    assert(s.len() == 12 + 2 * u.len());
    assert forall|k: int| 0 <= k < u.len() implies gd3_units(s)[k] == u[k] by {
        assert(s[12 + 2 * k] == units_le_bytes(u)[2 * k]);
        assert(s[13 + 2 * k] == units_le_bytes(u)[2 * k + 1]);
    }
    assert(gd3_units(s) =~= u);
}

/// The fields of written metadata are the code units of its texts.
proof fn lemma_written_fields(m: VgmMetadata)
    requires
        forall|i: int| 0 <= i < 11 ==> nul_free(#[trigger] written_texts(m)[i]),
    ensures
        gd3_fields(gd3_units(gd3_bytes(m))).len() == 11,
        forall|i: int|
            0 <= i < 11 ==> #[trigger] gd3_fields(gd3_units(gd3_bytes(m)))[i] == utf16_units(written_texts(m)[i]),
{
    let ts = written_texts(m);
    lemma_written_units(m);
    lemma_split_terminated(ts, Seq::empty());
    assert(terminated_units(ts) + Seq::<u16>::empty() =~= terminated_units(ts));
    assert(split_on_zero(Seq::<u16>::empty(), Seq::<u16>::empty()) == Seq::<Seq<u16>>::empty());
    assert(gd3_fields(gd3_units(gd3_bytes(m))) =~= ts.map_values(|t: Seq<char>| utf16_units(t)));
}

/// Reading written metadata gives back its texts, where no text holds a NUL
/// character (a NUL would end its field early).
pub proof fn lemma_metadata_round_trip(m: VgmMetadata, r: VgmResult<VgmMetadata>)
    requires
        forall|i: int| 0 <= i < 11 ==> nul_free(#[trigger] written_texts(m)[i]),
        metadata_result(gd3_bytes(m), None, r),
    ensures
        r is Ok,
        written_texts(r->Ok_0) == written_texts(m),
{
    let ts = written_texts(m);
    let s = gd3_bytes(m);
    lemma_written_units(m);
    lemma_written_fields(m);
    let fs = gd3_fields(gd3_units(s));
    assert forall|i: int| 0 <= i < 11 implies utf16_valid(#[trigger] fs[i]) && utf16_decode(fs[i]) == ts[i] by {
        lemma_utf16_round_trip(ts[i]);
    }
    lemma_no_bad_field(fs, 0);
    assert(!gd3_fails_early(s, None));
    assert(metadata_read(r->Ok_0, s));
    assert(written_texts(r->Ok_0) =~= ts);
}
/// Written GD3 data starts with "Gd3 " and version 1.00, and its length
/// field, the 32-bit little-endian number at offset 8, counts the bytes
/// that follow it (modulo 2^32): the eleven texts with their terminators.
pub proof fn lemma_gd3_length_field(m: VgmMetadata)
    ensures
        gd3_bytes(m).len() >= 12,
        gd3_bytes(m).take(8) == seq![0x47u8, 0x64u8, 0x33u8, 0x20u8, 0x00u8, 0x01u8, 0x00u8, 0x00u8],
        seq_le32(gd3_bytes(m), 8) == (gd3_bytes(m).len() - 12) as u32,
{
    let b = gd3_bytes(m);
    let n = gd3_body(m).len() as u32;
    lemma_le32_roundtrip(n);
    assert(b.take(8) =~= seq![0x47u8, 0x64u8, 0x33u8, 0x20u8, 0x00u8, 0x01u8, 0x00u8, 0x00u8]);
    assert(b[8] == u32_le_bytes(n)[0]);
    assert(b[9] == u32_le_bytes(n)[1]);
    assert(b[10] == u32_le_bytes(n)[2]);
    assert(b[11] == u32_le_bytes(n)[3]);
}

} // verus!

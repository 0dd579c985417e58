//! The VGM file header: its fields, how it is read and written, and its
//! optional extra header of chip clocks and volumes.

use crate::buffer::{
    buf_get_u32_le, buf_get_u16_le, buf_get_u8, buf_len, bytes_mut_view,
    bytes_view, le32, out_len, out_put_slice, out_put_u8, seq_le16, seq_le32, u16_le_bytes,
    u32_le_bytes,
};
use crate::errors::{VgmError, VgmResult};
use crate::parser_config::{is_size_error, ParserConfig, ResourceTracker};
use crate::text::{decimal_string, decimal_text, joined};
use crate::command_writer::{lemma_u16_bytes, lemma_u32_bytes};
use crate::vgm_commands::{probe_is, step_len, vec_le32, Probe, Step};
use crate::utils::{
    bcd_digits, bcd_encoding, bcd_from_bytes, bcd_value, decimal_to_bcd, string_from_utf8_lossy, utf8_lossy_text,
};
use bytes::{Bytes, BytesMut};
use vstd::prelude::*;
use vstd::string::StringExecFns;

verus! {

/// A chip clock of the extra header.
#[derive(Debug, Clone, Copy)]
pub struct ChipClockEntry {
    pub chip_id: u8,
    pub clock: u32,
}

/// A chip volume of the extra header.
#[derive(Debug, Clone, Copy)]
pub struct ChipVolumeEntry {
    pub chip_id: u8,
    pub flags: u8,
    pub volume: u16,
}

/// The extra header (VGM 1.70 on), between the main header and the VGM data.
#[derive(Debug)]
pub struct ExtraHeaderData {
    pub header_size: u32,
    pub chip_clock_offset: u32,
    pub chip_vol_offset: u32,
    pub chip_clock_entries: Vec<ChipClockEntry>,
    pub chip_volume_entries: Vec<ChipVolumeEntry>,
}

/// The fields of a VGM header. Fields that a file's header does not reach
/// (before the VGM data starts) are 0.
#[derive(Debug)]
pub struct HeaderData {
    pub end_of_file_offset: u32,
    pub version: u32,
    pub sn76489_clock: u32,
    pub ym2413_clock: u32,
    pub gd3_offset: u32,
    pub total_nb_samples: u32,
    pub loop_offset: u32,
    pub loop_nb_samples: u32,
    pub rate: u32,
    pub sn76489_feedback: u16,
    pub sn76489_shift_register_width: u8,
    pub sn76489_flags: u8,
    pub ym2612_clock: u32,
    pub ym2151_clock: u32,
    pub vgm_data_offset: u32,
    pub sega_pcm_clock: u32,
    pub spcm_interface: u32,
    pub rf5_c68_clock: u32,
    pub ym2203_clock: u32,
    pub ym2608_clock: u32,
    pub ym2610_b_clock: u32,
    pub ym3812_clock: u32,
    pub ym3526_clock: u32,
    pub y8950_clock: u32,
    pub ymf262_clock: u32,
    pub ymf278_b_clock: u32,
    pub ymf271_clock: u32,
    pub ymz280_b_clock: u32,
    pub rf5_c164_clock: u32,
    pub pwm_clock: u32,
    pub ay8910_clock: u32,
    pub ay8910_chip_type: u8,
    pub ay8910_flags: u8,
    pub ym2203_ay8910_flags: u8,
    pub ym2608_ay8910_flags: u8,
    pub volume_modifier: u8,
    pub loop_base: u8,
    pub loop_modifier: u8,
    pub gb_dmg_clock: u32,
    pub nes_apu_clock: u32,
    pub multi_pcm_clock: u32,
    pub u_pd7759_clock: u32,
    pub okim6258_clock: u32,
    pub okim6258_flags: u8,
    pub k054539_flags: u8,
    pub c140_chip_type: u8,
    pub okim6295_clock: u32,
    pub k051649_k052539_clock: u32,
    pub k054539_clock: u32,
    pub hu_c6280_clock: u32,
    pub c140_clock: u32,
    pub k053260_clock: u32,
    pub pokey_clock: u32,
    pub qsound_clock: u32,
    pub scsp_clock: u32,
    pub extra_header_offset: u32,
    pub wonder_swan_clock: u32,
    pub vsu_clock: u32,
    pub saa1099_clock: u32,
    pub es5503_clock: u32,
    pub es5506_clock: u32,
    pub es5503_nb_channels: u8,
    pub es5505_es5506_nb_channels: u8,
    pub c352_clock_divider: u8,
    pub x1010_clock: u32,
    pub c352_clock: u32,
    pub ga20_clock: u32,
    /// With VGM 1.70, an extra header was added, between the usual header and the VGM data.
    pub extra_header: ExtraHeaderData,
}

impl Default for ChipClockEntry {
    fn default() -> (e: Self)
        ensures
            e.chip_id == 0 && e.clock == 0,
    {
        ChipClockEntry { chip_id: 0, clock: 0 }
    }
}

impl Default for ChipVolumeEntry {
    fn default() -> (e: Self)
        ensures
            e.chip_id == 0 && e.flags == 0 && e.volume == 0,
    {
        ChipVolumeEntry { chip_id: 0, flags: 0, volume: 0 }
    }
}

/// Whether an extra header is empty: no offsets and no entries.
pub open spec fn extra_header_empty(x: ExtraHeaderData) -> bool {
    &&& x.header_size == 0
    &&& x.chip_clock_offset == 0
    &&& x.chip_vol_offset == 0
    &&& x.chip_clock_entries@.len() == 0
    &&& x.chip_volume_entries@.len() == 0
}

impl Default for ExtraHeaderData {
    fn default() -> (x: Self)
        ensures
            extra_header_empty(x),
    {
        ExtraHeaderData {
            header_size: 0,
            chip_clock_offset: 0,
            chip_vol_offset: 0,
            chip_clock_entries: Vec::new(),
            chip_volume_entries: Vec::new(),
        }
    }
}

impl Default for HeaderData {
    fn default() -> (h: Self)
        ensures
            h.end_of_file_offset == 0,
            h.version == 0,
            h.sn76489_clock == 0,
            h.ym2413_clock == 0,
            h.gd3_offset == 0,
            h.total_nb_samples == 0,
            h.loop_offset == 0,
            h.loop_nb_samples == 0,
            h.rate == 0,
            h.sn76489_feedback == 0,
            h.sn76489_shift_register_width == 0,
            h.sn76489_flags == 0,
            h.ym2612_clock == 0,
            h.ym2151_clock == 0,
            h.vgm_data_offset == 0,
            h.sega_pcm_clock == 0,
            h.spcm_interface == 0,
            h.rf5_c68_clock == 0,
            h.ym2203_clock == 0,
            h.ym2608_clock == 0,
            h.ym2610_b_clock == 0,
            h.ym3812_clock == 0,
            h.ym3526_clock == 0,
            h.y8950_clock == 0,
            h.ymf262_clock == 0,
            h.ymf278_b_clock == 0,
            h.ymf271_clock == 0,
            h.ymz280_b_clock == 0,
            h.rf5_c164_clock == 0,
            h.pwm_clock == 0,
            h.ay8910_clock == 0,
            h.ay8910_chip_type == 0,
            h.ay8910_flags == 0,
            h.ym2203_ay8910_flags == 0,
            h.ym2608_ay8910_flags == 0,
            h.volume_modifier == 0,
            h.loop_base == 0,
            h.loop_modifier == 0,
            h.gb_dmg_clock == 0,
            h.nes_apu_clock == 0,
            h.multi_pcm_clock == 0,
            h.u_pd7759_clock == 0,
            h.okim6258_clock == 0,
            h.okim6258_flags == 0,
            h.k054539_flags == 0,
            h.c140_chip_type == 0,
            h.okim6295_clock == 0,
            h.k051649_k052539_clock == 0,
            h.k054539_clock == 0,
            h.hu_c6280_clock == 0,
            h.c140_clock == 0,
            h.k053260_clock == 0,
            h.pokey_clock == 0,
            h.qsound_clock == 0,
            h.scsp_clock == 0,
            h.extra_header_offset == 0,
            h.wonder_swan_clock == 0,
            h.vsu_clock == 0,
            h.saa1099_clock == 0,
            h.es5503_clock == 0,
            h.es5506_clock == 0,
            h.es5503_nb_channels == 0,
            h.es5505_es5506_nb_channels == 0,
            h.c352_clock_divider == 0,
            h.x1010_clock == 0,
            h.c352_clock == 0,
            h.ga20_clock == 0,
            extra_header_empty(h.extra_header),
    {
        HeaderData {
            end_of_file_offset: 0,
            version: 0,
            sn76489_clock: 0,
            ym2413_clock: 0,
            gd3_offset: 0,
            total_nb_samples: 0,
            loop_offset: 0,
            loop_nb_samples: 0,
            rate: 0,
            sn76489_feedback: 0,
            sn76489_shift_register_width: 0,
            sn76489_flags: 0,
            ym2612_clock: 0,
            ym2151_clock: 0,
            vgm_data_offset: 0,
            sega_pcm_clock: 0,
            spcm_interface: 0,
            rf5_c68_clock: 0,
            ym2203_clock: 0,
            ym2608_clock: 0,
            ym2610_b_clock: 0,
            ym3812_clock: 0,
            ym3526_clock: 0,
            y8950_clock: 0,
            ymf262_clock: 0,
            ymf278_b_clock: 0,
            ymf271_clock: 0,
            ymz280_b_clock: 0,
            rf5_c164_clock: 0,
            pwm_clock: 0,
            ay8910_clock: 0,
            ay8910_chip_type: 0,
            ay8910_flags: 0,
            ym2203_ay8910_flags: 0,
            ym2608_ay8910_flags: 0,
            volume_modifier: 0,
            loop_base: 0,
            loop_modifier: 0,
            gb_dmg_clock: 0,
            nes_apu_clock: 0,
            multi_pcm_clock: 0,
            u_pd7759_clock: 0,
            okim6258_clock: 0,
            okim6258_flags: 0,
            k054539_flags: 0,
            c140_chip_type: 0,
            okim6295_clock: 0,
            k051649_k052539_clock: 0,
            k054539_clock: 0,
            hu_c6280_clock: 0,
            c140_clock: 0,
            k053260_clock: 0,
            pokey_clock: 0,
            qsound_clock: 0,
            scsp_clock: 0,
            extra_header_offset: 0,
            wonder_swan_clock: 0,
            vsu_clock: 0,
            saa1099_clock: 0,
            es5503_clock: 0,
            es5506_clock: 0,
            es5503_nb_channels: 0,
            es5505_es5506_nb_channels: 0,
            c352_clock_divider: 0,
            x1010_clock: 0,
            c352_clock: 0,
            ga20_clock: 0,
            extra_header: ExtraHeaderData::default(),
        }
    }
}

/// The offset of the `i`th optional header field, in file order; 0xE4
/// (the end of the header) for `i` = 53.
pub open spec fn opt_offset(i: int) -> int {
    if i < 14 {
        0x40 + 4 * i
    } else if i < 22 {
        0x78 + (i - 14)
    } else if i < 27 {
        0x80 + 4 * (i - 22)
    } else if i < 31 {
        0x94 + (i - 27)
    } else if i < 46 {
        0x98 + 4 * (i - 31)
    } else if i < 50 {
        0xD4 + (i - 46)
    } else {
        0xD8 + 4 * (i - 50)
    }
}

/// Whether the `i`th optional header field is four bytes wide (else one).
pub open spec fn opt_wide(i: int) -> bool {
    i < 14 || (22 <= i < 27) || (31 <= i < 46) || i >= 50
}

/// Whether the `i`th optional header field is a reserved byte, which no
/// field of `HeaderData` holds.
pub open spec fn opt_reserved(i: int) -> bool {
    i == 19 || i == 30 || i == 49
}

/// The optional fields of a header in file order (0 for a reserved byte).
#[verifier::opaque]
pub open spec fn opt_values(h: HeaderData) -> Seq<u32> {
    seq![
        h.rf5_c68_clock,
        h.ym2203_clock,
        h.ym2608_clock,
        h.ym2610_b_clock,
        h.ym3812_clock,
        h.ym3526_clock,
        h.y8950_clock,
        h.ymf262_clock,
        h.ymf278_b_clock,
        h.ymf271_clock,
        h.ymz280_b_clock,
        h.rf5_c164_clock,
        h.pwm_clock,
        h.ay8910_clock,
        h.ay8910_chip_type as u32,
        h.ay8910_flags as u32,
        h.ym2203_ay8910_flags as u32,
        h.ym2608_ay8910_flags as u32,
        h.volume_modifier as u32,
        0u32,
        h.loop_base as u32,
        h.loop_modifier as u32,
        h.gb_dmg_clock,
        h.nes_apu_clock,
        h.multi_pcm_clock,
        h.u_pd7759_clock,
        h.okim6258_clock,
        h.okim6258_flags as u32,
        h.k054539_flags as u32,
        h.c140_chip_type as u32,
        0u32,
        h.okim6295_clock,
        h.k051649_k052539_clock,
        h.k054539_clock,
        h.hu_c6280_clock,
        h.c140_clock,
        h.k053260_clock,
        h.pokey_clock,
        h.qsound_clock,
        h.scsp_clock,
        h.extra_header_offset,
        h.wonder_swan_clock,
        h.vsu_clock,
        h.saa1099_clock,
        h.es5503_clock,
        h.es5506_clock,
        h.es5503_nb_channels as u32,
        h.es5505_es5506_nb_channels as u32,
        h.c352_clock_divider as u32,
        0u32,
        h.x1010_clock,
        h.c352_clock,
        h.ga20_clock,
    ]
}

/// The value of the `i`th optional field of a header (0 for a reserved byte).
pub open spec fn opt_value(h: HeaderData, i: int) -> u32 {
    opt_values(h)[i]
}

/// Sets the `i`th optional field; a reserved byte sets nothing.
#[verifier::spinoff_prover]
#[verifier::rlimit(50)]
fn set_opt(h: &mut HeaderData, i: usize, v: u32)
    requires
        i < 53,
        !opt_wide(i as int) ==> v <= 0xFF,
    ensures
        opt_values(*final(h)) == if opt_reserved(i as int) {
            opt_values(*old(h))
        } else {
            opt_values(*old(h)).update(i as int, v)
        },
        final(h).end_of_file_offset == old(h).end_of_file_offset,
        final(h).version == old(h).version,
        final(h).sn76489_clock == old(h).sn76489_clock,
        final(h).ym2413_clock == old(h).ym2413_clock,
        final(h).gd3_offset == old(h).gd3_offset,
        final(h).total_nb_samples == old(h).total_nb_samples,
        final(h).loop_offset == old(h).loop_offset,
        final(h).loop_nb_samples == old(h).loop_nb_samples,
        final(h).rate == old(h).rate,
        final(h).sn76489_feedback == old(h).sn76489_feedback,
        final(h).sn76489_shift_register_width == old(h).sn76489_shift_register_width,
        final(h).sn76489_flags == old(h).sn76489_flags,
        final(h).ym2612_clock == old(h).ym2612_clock,
        final(h).ym2151_clock == old(h).ym2151_clock,
        final(h).vgm_data_offset == old(h).vgm_data_offset,
        final(h).sega_pcm_clock == old(h).sega_pcm_clock,
        final(h).spcm_interface == old(h).spcm_interface,
        final(h).extra_header == old(h).extra_header,
{
    proof {
        reveal(opt_values);
    }
    match i {
        0 => h.rf5_c68_clock = v,
        1 => h.ym2203_clock = v,
        2 => h.ym2608_clock = v,
        3 => h.ym2610_b_clock = v,
        4 => h.ym3812_clock = v,
        5 => h.ym3526_clock = v,
        6 => h.y8950_clock = v,
        7 => h.ymf262_clock = v,
        8 => h.ymf278_b_clock = v,
        9 => h.ymf271_clock = v,
        10 => h.ymz280_b_clock = v,
        11 => h.rf5_c164_clock = v,
        12 => h.pwm_clock = v,
        13 => h.ay8910_clock = v,
        14 => h.ay8910_chip_type = v as u8,
        15 => h.ay8910_flags = v as u8,
        16 => h.ym2203_ay8910_flags = v as u8,
        17 => h.ym2608_ay8910_flags = v as u8,
        18 => h.volume_modifier = v as u8,
        20 => h.loop_base = v as u8,
        21 => h.loop_modifier = v as u8,
        22 => h.gb_dmg_clock = v,
        23 => h.nes_apu_clock = v,
        24 => h.multi_pcm_clock = v,
        25 => h.u_pd7759_clock = v,
        26 => h.okim6258_clock = v,
        27 => h.okim6258_flags = v as u8,
        28 => h.k054539_flags = v as u8,
        29 => h.c140_chip_type = v as u8,
        31 => h.okim6295_clock = v,
        32 => h.k051649_k052539_clock = v,
        33 => h.k054539_clock = v,
        34 => h.hu_c6280_clock = v,
        35 => h.c140_clock = v,
        36 => h.k053260_clock = v,
        37 => h.pokey_clock = v,
        38 => h.qsound_clock = v,
        39 => h.scsp_clock = v,
        40 => h.extra_header_offset = v,
        41 => h.wonder_swan_clock = v,
        42 => h.vsu_clock = v,
        43 => h.saa1099_clock = v,
        44 => h.es5503_clock = v,
        45 => h.es5506_clock = v,
        46 => h.es5503_nb_channels = v as u8,
        47 => h.es5505_es5506_nb_channels = v as u8,
        48 => h.c352_clock_divider = v as u8,
        50 => h.x1010_clock = v,
        51 => h.c352_clock = v,
        52 => h.ga20_clock = v,
        _ => {},
    }
}


/// Whether a header starts with the magic bytes "Vgm ".
pub open spec fn magic_ok(s: Seq<u8>) -> bool {
    s[0] == 0x56 && s[1] == 0x67 && s[2] == 0x6d && s[3] == 0x20
}

/// The position at which a header says that the VGM data starts.
pub open spec fn vgm_start(s: Seq<u8>) -> int {
    seq_le32(s, 0x34) + 0x34
}

/// The position at which a header says that its extra header starts (where
/// its extra header offset is not 0).
pub open spec fn extra_start(s: Seq<u8>) -> int {
    seq_le32(s, 0xBC) + 0xBC
}

/// Whether reading a header stops before its `i`th optional field: the VGM
/// data starts there, or, from 0xC0 on, the extra header does.
pub open spec fn stops_at(s: Seq<u8>, i: int) -> bool {
    opt_offset(i) == vgm_start(s) || (i >= 41 && seq_le32(s, 0xBC) != 0 && opt_offset(i)
        == extra_start(s))
}

/// The index of the first optional field, from the `i`th on, before which
/// reading stops; 53 where it reads them all.
pub open spec fn header_stop(s: Seq<u8>, i: int) -> int
    decreases 53 - i,
{
    if i >= 53 {
        53
    } else if stops_at(s, i) {
        i
    } else {
        header_stop(s, i + 1)
    }
}

/// The value of the `i`th optional field as the bytes hold it.
pub open spec fn opt_read(s: Seq<u8>, i: int) -> u32 {
    if opt_reserved(i) {
        0
    } else if opt_wide(i) {
        seq_le32(s, opt_offset(i))
    } else {
        s[opt_offset(i)] as u32
    }
}

/// Whether the fields of the first 64 bytes of `h` are those of `s`.
pub open spec fn fixed_fields_read(h: HeaderData, s: Seq<u8>) -> bool {
    &&& h.end_of_file_offset == seq_le32(s, 0x04)
    &&& h.version == bcd_value(s.subrange(0x08, 0x0C))
    &&& h.sn76489_clock == seq_le32(s, 0x0C)
    &&& h.ym2413_clock == seq_le32(s, 0x10)
    &&& h.gd3_offset == seq_le32(s, 0x14)
    &&& h.total_nb_samples == seq_le32(s, 0x18)
    &&& h.loop_offset == seq_le32(s, 0x1C)
    &&& h.loop_nb_samples == seq_le32(s, 0x20)
    &&& h.rate == seq_le32(s, 0x24)
    &&& h.sn76489_feedback == seq_le16(s, 0x28)
    &&& h.sn76489_shift_register_width == s[0x2A]
    &&& h.sn76489_flags == s[0x2B]
    &&& h.ym2612_clock == seq_le32(s, 0x2C)
    &&& h.ym2151_clock == seq_le32(s, 0x30)
    &&& h.vgm_data_offset == seq_le32(s, 0x34)
    &&& h.sega_pcm_clock == seq_le32(s, 0x38)
    &&& h.spcm_interface == seq_le32(s, 0x3C)
}

/// Whether the optional fields of `h` before the `stop`th are those of `s`,
/// and the others 0.
pub open spec fn opt_fields_read(h: HeaderData, s: Seq<u8>, stop: int) -> bool {
    forall|i: int|
        0 <= i < 53 ==> #[trigger] opt_value(h, i) == if i < stop {
            opt_read(s, i)
        } else {
            0
        }
}

/// The position of the chip clock count of an extra header at `p` (-1 where
/// its offset is 0).
pub open spec fn ex_clock_pos(s: Seq<u8>, p: int) -> int {
    if seq_le32(s, p + 4) == 0 {
        -1
    } else {
        p + 4 + seq_le32(s, p + 4)
    }
}

/// The position of the chip volume count of an extra header at `p` (-1 where
/// its offset is 0).
pub open spec fn ex_vol_pos(s: Seq<u8>, p: int) -> int {
    if seq_le32(s, p + 8) == 0 {
        -1
    } else {
        p + 8 + seq_le32(s, p + 8)
    }
}

/// Reading a count byte at `at` and that many entries of `width` bytes,
/// refused where the count exceeds `limit`.
pub open spec fn section_step(s: Seq<u8>, at: int, width: int, limit: Option<u8>) -> Step {
    if s.len() < at + 1 {
        Step::Stuck
    } else if limit is Some && s[at] > limit->0 {
        Step::Refused { len: (at + 1) as nat }
    } else if s.len() < at + 1 + width * s[at] {
        Step::Stuck
    } else {
        Step::Done { len: (at + 1 + width * s[at]) as nat }
    }
}

/// The limit on chip clock entries, if any.
pub open spec fn clock_limit(config: Option<ParserConfig>) -> Option<u8> {
    match config {
        Some(c) => Some(c.max_chip_clock_entries),
        None => None,
    }
}

/// The limit on chip volume entries, if any.
pub open spec fn vol_limit(config: Option<ParserConfig>) -> Option<u8> {
    match config {
        Some(c) => Some(c.max_chip_volume_entries),
        None => None,
    }
}

/// One pass over an extra header at `p` from position `cur`: the chip
/// clocks where they start at `cur`, then the chip volumes where they do;
/// `len` of a `Done` step is the position reached.
pub open spec fn ex_pass(s: Seq<u8>, p: int, cur: int, config: Option<ParserConfig>) -> Step {
    let a = if ex_clock_pos(s, p) == cur {
        section_step(s, cur, 5, clock_limit(config))
    } else {
        Step::Done { len: cur as nat }
    };
    match a {
        Step::Done { len } => if ex_vol_pos(s, p) == cur {
            section_step(s, len as int, 4, vol_limit(config))
        } else {
            a
        },
        _ => a,
    }
}

/// Reading an extra header at `p`: its three fields, then two passes.
pub open spec fn extra_step(s: Seq<u8>, p: int, config: Option<ParserConfig>) -> Step {
    if s.len() < p + 12 {
        Step::Stuck
    } else {
        match ex_pass(s, p, p + 12, config) {
            Step::Done { len } => ex_pass(s, p, len as int, config),
            other => other,
        }
    }
}

/// The position after the chip clocks of a pass from `cur`, where they start there.
pub open spec fn ex_after_clock(s: Seq<u8>, p: int, cur: int) -> int {
    if ex_clock_pos(s, p) == cur {
        cur + 1 + 5 * s[cur]
    } else {
        cur
    }
}

/// The position at which the second pass over an extra header at `p` starts.
pub open spec fn ex_second_pass(s: Seq<u8>, p: int) -> int {
    let c = ex_after_clock(s, p, p + 12);
    if ex_vol_pos(s, p) == p + 12 {
        c + 1 + 4 * s[c]
    } else {
        c
    }
}

/// The position of the chip clock count that is read (-1 where none is).
pub open spec fn clock_count_at(s: Seq<u8>, p: int) -> int {
    if ex_clock_pos(s, p) == p + 12 || ex_clock_pos(s, p) == ex_second_pass(s, p) {
        ex_clock_pos(s, p)
    } else {
        -1
    }
}

/// The position of the chip volume count that is read (-1 where none is).
pub open spec fn vol_count_at(s: Seq<u8>, p: int) -> int {
    if ex_vol_pos(s, p) == p + 12 {
        ex_after_clock(s, p, p + 12)
    } else if ex_vol_pos(s, p) == ex_second_pass(s, p) {
        ex_after_clock(s, p, ex_second_pass(s, p))
    } else {
        -1
    }
}

/// Whether `v` are the chip clocks whose count is at `at` (none for -1).
pub open spec fn clock_entries_at(s: Seq<u8>, at: int, v: Seq<ChipClockEntry>) -> bool {
    if at < 0 {
        v.len() == 0
    } else {
        &&& v.len() == s[at]
        &&& forall|j: int|
            0 <= j < v.len() ==> (#[trigger] v[j]).chip_id == s[at + 1 + 5 * j] && v[j].clock
                == seq_le32(s, at + 2 + 5 * j)
    }
}

/// Whether `v` are the chip volumes whose count is at `at` (none for -1).
pub open spec fn vol_entries_at(s: Seq<u8>, at: int, v: Seq<ChipVolumeEntry>) -> bool {
    if at < 0 {
        v.len() == 0
    } else {
        &&& v.len() == s[at]
        &&& forall|j: int|
            0 <= j < v.len() ==> (#[trigger] v[j]).chip_id == s[at + 1 + 4 * j] && v[j].flags == s[at
                + 2 + 4 * j] && v[j].volume == seq_le16(s, at + 3 + 4 * j)
    }
}

/// Whether `x` is the extra header at `p` of `s`.
pub open spec fn extra_read(x: ExtraHeaderData, s: Seq<u8>, p: int) -> bool {
    &&& x.header_size == seq_le32(s, p)
    &&& x.chip_clock_offset == seq_le32(s, p + 4)
    &&& x.chip_vol_offset == seq_le32(s, p + 8)
    &&& clock_entries_at(s, clock_count_at(s, p), x.chip_clock_entries@)
    &&& vol_entries_at(s, vol_count_at(s, p), x.chip_volume_entries@)
}

/// Whether `e` refuses an extra header at `p` whose step is `Refused`: a
/// count over its limit.
pub open spec fn extra_error(s: Seq<u8>, p: int, config: Option<ParserConfig>, e: VgmError) -> bool {
    let at = step_len(extra_step(s, p, config)) - 1;
    match config {
        Some(c) => if at == clock_count_at(s, p) {
            is_size_error(e, "chip_clock_entries"@, s[at] as int, c.max_chip_clock_entries as int)
        } else {
            is_size_error(e, "chip_volume_entries"@, s[at] as int, c.max_chip_volume_entries as int)
        },
        None => false,
    }
}


/// The limits that a borrowed configuration, if any, sets.
pub open spec fn config_of(config: Option<&ParserConfig>) -> Option<ParserConfig> {
    match config {
        Some(c) => Some(*c),
        None => None,
    }
}

/// Reads a count of chip clocks at `at`, then that many entries.
fn read_clock_section(data: &mut Bytes, Ghost(s): Ghost<Seq<u8>>, at: u64, config: Option<&ParserConfig>) -> (r:
    VgmResult<Vec<ChipClockEntry>>)
    requires
        bytes_view(*old(data)) == s.skip(at as int),
        at <= s.len(),
        !(section_step(s, at as int, 5, clock_limit(config_of(config))) is Stuck),
    ensures
        ({
            let st = section_step(s, at as int, 5, clock_limit(config_of(config)));
            &&& bytes_view(*final(data)) == s.skip(step_len(st) as int)
            &&& st is Done ==> r is Ok && clock_entries_at(s, at as int, r->Ok_0@)
            &&& st is Refused ==> r is Err && is_size_error(
                r->Err_0,
                "chip_clock_entries"@,
                s[at as int] as int,
                clock_limit(config_of(config))->0 as int,
            )
        }),
{
    let nb_entries = buf_get_u8(data);
    if let Some(c) = config {
        c.check_chip_entries(nb_entries, 0)?;
    }
    let mut entries: Vec<ChipClockEntry> = Vec::new();
    let mut k: u8 = 0;
    while k < nb_entries
        invariant
            k <= nb_entries,
            nb_entries == s[at as int],
            s.len() >= at + 1 + 5 * nb_entries,
            bytes_view(*data) == s.skip(at + 1 + 5 * k),
            entries@.len() == k,
            forall|j: int|
                0 <= j < k ==> (#[trigger] entries@[j]).chip_id == s[at + 1 + 5 * j]
                    && entries@[j].clock == seq_le32(s, at + 2 + 5 * j),
        decreases nb_entries - k,
    {
        let chip_id = buf_get_u8(data);
        let clock = buf_get_u32_le(data);
        proof {
            assert(s.skip(at + 1 + 5 * k).skip(1) =~= s.skip(at + 2 + 5 * k));
            assert(s.skip(at + 2 + 5 * k).skip(4) =~= s.skip(at + 1 + 5 * (k + 1)));
            assert(seq_le32(s.skip(at + 2 + 5 * k), 0) == seq_le32(s, at + 2 + 5 * k));
        }
        entries.push(ChipClockEntry { chip_id, clock });
        k += 1;
    }
    Ok(entries)
}

/// Reads a count of chip volumes at `at`, then that many entries.
fn read_vol_section(data: &mut Bytes, Ghost(s): Ghost<Seq<u8>>, at: u64, config: Option<&ParserConfig>) -> (r:
    VgmResult<Vec<ChipVolumeEntry>>)
    requires
        bytes_view(*old(data)) == s.skip(at as int),
        at <= s.len(),
        !(section_step(s, at as int, 4, vol_limit(config_of(config))) is Stuck),
    ensures
        ({
            let st = section_step(s, at as int, 4, vol_limit(config_of(config)));
            &&& bytes_view(*final(data)) == s.skip(step_len(st) as int)
            &&& st is Done ==> r is Ok && vol_entries_at(s, at as int, r->Ok_0@)
            &&& st is Refused ==> r is Err && is_size_error(
                r->Err_0,
                "chip_volume_entries"@,
                s[at as int] as int,
                vol_limit(config_of(config))->0 as int,
            )
        }),
{
    let nb_entries = buf_get_u8(data);
    if let Some(c) = config {
        c.check_chip_entries(0, nb_entries)?;
    }
    let mut entries: Vec<ChipVolumeEntry> = Vec::new();
    let mut k: u8 = 0;
    while k < nb_entries
        invariant
            k <= nb_entries,
            nb_entries == s[at as int],
            s.len() >= at + 1 + 4 * nb_entries,
            bytes_view(*data) == s.skip(at + 1 + 4 * k),
            entries@.len() == k,
            forall|j: int|
                0 <= j < k ==> (#[trigger] entries@[j]).chip_id == s[at + 1 + 4 * j]
                    && entries@[j].flags == s[at + 2 + 4 * j] && entries@[j].volume == seq_le16(
                    s,
                    at + 3 + 4 * j,
                ),
        decreases nb_entries - k,
    {
        let chip_id = buf_get_u8(data);
        let flags = buf_get_u8(data);
        let volume = buf_get_u16_le(data);
        proof {
            assert(s.skip(at + 1 + 4 * k).skip(1) =~= s.skip(at + 2 + 4 * k));
            assert(s.skip(at + 2 + 4 * k).skip(1) =~= s.skip(at + 3 + 4 * k));
            assert(s.skip(at + 3 + 4 * k).skip(2) =~= s.skip(at + 1 + 4 * (k + 1)));
            assert(seq_le16(s.skip(at + 3 + 4 * k), 0) == seq_le16(s, at + 3 + 4 * k));
        }
        entries.push(ChipVolumeEntry { chip_id, flags, volume });
        k += 1;
    }
    Ok(entries)
}


/// A section position as the parser holds it.
pub open spec fn pos_option(pos: int) -> Option<u64> {
    if pos < 0 {
        None
    } else {
        Some(pos as u64)
    }
}

/// One pass over an extra header at `p` from position `cur`: the sections
/// that start at `cur` are read, chip clocks first.
fn extra_pass(
    data: &mut Bytes,
    Ghost(s): Ghost<Seq<u8>>,
    p: u64,
    cur: u64,
    clock_pos: Option<u64>,
    vol_pos: Option<u64>,
    config: Option<&ParserConfig>,
) -> (r: VgmResult<(u64, Option<Vec<ChipClockEntry>>, Option<Vec<ChipVolumeEntry>>)>)
    requires
        bytes_view(*old(data)) == s.skip(cur as int),
        cur <= s.len(),
        p <= s.len(),
        s.len() <= isize::MAX,
        clock_pos == pos_option(ex_clock_pos(s, p as int)),
        vol_pos == pos_option(ex_vol_pos(s, p as int)),
        !(ex_pass(s, p as int, cur as int, config_of(config)) is Stuck),
    ensures
        ({
            let st = ex_pass(s, p as int, cur as int, config_of(config));
            let at = ex_after_clock(s, p as int, cur as int);
            &&& bytes_view(*final(data)) == s.skip(step_len(st) as int)
            &&& st is Done ==> r is Ok && r->Ok_0.0 == step_len(st) && (r->Ok_0.1 is Some
                <==> ex_clock_pos(s, p as int) == cur) && (r->Ok_0.1 is Some ==> clock_entries_at(
                s,
                cur as int,
                r->Ok_0.1->0@,
            )) && (r->Ok_0.2 is Some <==> ex_vol_pos(s, p as int) == cur) && (r->Ok_0.2 is Some
                ==> vol_entries_at(s, at, r->Ok_0.2->0@))
            &&& st is Refused ==> r is Err && if ex_clock_pos(s, p as int) == cur && section_step(
                s,
                cur as int,
                5,
                clock_limit(config_of(config)),
            ) is Refused {
                is_size_error(
                    r->Err_0,
                    "chip_clock_entries"@,
                    s[cur as int] as int,
                    clock_limit(config_of(config))->0 as int,
                )
            } else {
                is_size_error(
                    r->Err_0,
                    "chip_volume_entries"@,
                    s[at] as int,
                    vol_limit(config_of(config))->0 as int,
                )
            }
        }),
{
    let mut pos = cur;
    let mut clocks: Option<Vec<ChipClockEntry>> = None;
    let mut vols: Option<Vec<ChipVolumeEntry>> = None;
    if let Some(cp) = clock_pos {
        if cp == cur {
            let v = read_clock_section(data, Ghost(s), cur, config)?;
            pos = cur + 1 + 5 * (v.len() as u64);
            clocks = Some(v);
        }
    }
    if let Some(vp) = vol_pos {
        if vp == cur {
            let v = read_vol_section(data, Ghost(s), pos, config)?;
            pos = pos + 1 + 4 * (v.len() as u64);
            vols = Some(v);
        }
    }
    Ok((pos, clocks, vols))
}

/// Reads an extra header at position `p`: its size and its two offsets,
/// then, in two passes, the chip clocks and chip volumes that start where
/// the reading stands.
fn parse_extra_header(data: &mut Bytes, Ghost(s): Ghost<Seq<u8>>, p: u64, config: Option<&ParserConfig>) -> (r:
    VgmResult<ExtraHeaderData>)
    requires
        bytes_view(*old(data)) == s.skip(p as int),
        p <= s.len(),
        s.len() <= isize::MAX,
        !(extra_step(s, p as int, config_of(config)) is Stuck),
    ensures
        ({
            let st = extra_step(s, p as int, config_of(config));
            &&& bytes_view(*final(data)) == s.skip(step_len(st) as int)
            &&& st is Done ==> r is Ok && extra_read(r->Ok_0, s, p as int)
            &&& st is Refused ==> r is Err && extra_error(s, p as int, config_of(config), r->Err_0)
        }),
{
    let header_size = buf_get_u32_le(data);
    let chip_clock_offset = buf_get_u32_le(data);
    let chip_vol_offset = buf_get_u32_le(data);
    proof {
        assert(s.skip(p as int).skip(4) =~= s.skip(p + 4));
        assert(s.skip(p + 4).skip(4) =~= s.skip(p + 8));
        assert(s.skip(p + 8).skip(4) =~= s.skip(p + 12));
        assert(seq_le32(s.skip(p as int), 0) == seq_le32(s, p as int));
        assert(seq_le32(s.skip(p + 4), 0) == seq_le32(s, p + 4));
        assert(seq_le32(s.skip(p + 8), 0) == seq_le32(s, p + 8));
    }
    let clock_pos: Option<u64> = if chip_clock_offset == 0 {
        None
    } else {
        Some(p + 4 + chip_clock_offset as u64)
    };
    let chip_vol_pos: Option<u64> = if chip_vol_offset == 0 {
        None
    } else {
        Some(p + 8 + chip_vol_offset as u64)
    };
    let (pos1, clocks1, vols1) = extra_pass(data, Ghost(s), p, p + 12, clock_pos, chip_vol_pos, config)?;
    let (_pos2, clocks2, vols2) = extra_pass(data, Ghost(s), p, pos1, clock_pos, chip_vol_pos, config)?;
    let chip_clock_entries = match clocks1 {
        Some(v) => v,
        None => match clocks2 {
            Some(v) => v,
            None => Vec::new(),
        },
    };
    let chip_volume_entries = match vols1 {
        Some(v) => v,
        None => match vols2 {
            Some(v) => v,
            None => Vec::new(),
        },
    };
    Ok(
        ExtraHeaderData {
            header_size,
            chip_clock_offset,
            chip_vol_offset,
            chip_clock_entries,
            chip_volume_entries,
        },
    )
}


/// The offset of the `i`th optional header field.
fn opt_offset_exec(i: usize) -> (off: usize)
    requires
        i <= 53,
    ensures
        off == opt_offset(i as int),
{
    if i < 14 {
        0x40 + 4 * i
    } else if i < 22 {
        0x78 + (i - 14)
    } else if i < 27 {
        0x80 + 4 * (i - 22)
    } else if i < 31 {
        0x94 + (i - 27)
    } else if i < 46 {
        0x98 + 4 * (i - 31)
    } else if i < 50 {
        0xD4 + (i - 46)
    } else {
        0xD8 + 4 * (i - 50)
    }
}

/// Whether the `i`th optional header field is four bytes wide.
fn opt_wide_exec(i: usize) -> (b: bool)
    ensures
        b == opt_wide(i as int),
{
    i < 14 || (22 <= i && i < 27) || (31 <= i && i < 46) || i >= 50
}

proof fn lemma_opt_offset_next(i: int)
    requires
        0 <= i < 53,
    ensures
        opt_offset(i + 1) == opt_offset(i) + if opt_wide(i) {
            4int
        } else {
            1int
        },
        0x40 <= opt_offset(i) < opt_offset(i + 1) <= 0xE4,
{
}

proof fn lemma_opt_offset_mono(i: int, k: int)
    requires
        0 <= i <= k <= 53,
    ensures
        opt_offset(i) <= opt_offset(k),
    decreases k - i,
{
    if i < k {
        lemma_opt_offset_next(i);
        lemma_opt_offset_mono(i + 1, k);
    }
}

/// Where no field before the `i`th stops the reading, it stops where the
/// reading from the `i`th does.
proof fn lemma_header_stop_from(s: Seq<u8>, i: int)
    requires
        0 <= i <= 53,
        forall|j: int| 0 <= j < i ==> !stops_at(s, j),
    ensures
        header_stop(s, 0) == header_stop(s, i),
    decreases i,
{
    if i > 0 {
        lemma_header_stop_from(s, i - 1);
    }
}

proof fn lemma_header_stop_range(s: Seq<u8>, i: int)
    requires
        0 <= i <= 53,
    ensures
        i <= header_stop(s, i) <= 53,
        header_stop(s, i) < 53 ==> stops_at(s, header_stop(s, i)),
    decreases 53 - i,
{
    if i < 53 {
        lemma_header_stop_range(s, i + 1);
    }
}


/// The optional fields do not depend on the extra header.
proof fn lemma_opt_values_ignore_extra(a: HeaderData, b: HeaderData)
    requires
        b == (HeaderData { extra_header: b.extra_header, ..a }),
    ensures
        opt_values(a) == opt_values(b),
        forall|s: Seq<u8>| fixed_fields_read(a, s) ==> fixed_fields_read(b, s),
{
    reveal(opt_values);
}

/// Four BCD bytes always hold a value that fits in a `u32`.
proof fn lemma_bcd4_fits(v: Seq<u8>)
    requires
        v.len() == 4,
    ensures
        bcd_value(v) <= u32::MAX,
{
    let t1 = v.drop_first();
    let t2 = t1.drop_first();
    let t3 = t2.drop_first();
    let t4 = t3.drop_first();
    assert(t4.len() == 0);
    assert(bcd_value(t4) == 0);
    assert(bcd_value(t3) <= 165);
    assert(bcd_value(t2) <= 165 + 100 * 165);
    assert(bcd_value(t1) <= 165 + 100 * (165 + 100 * 165));
    assert(bcd_value(v) <= 165 + 100 * (165 + 100 * (165 + 100 * 165)));
}

/// Reads the fields of the first 64 bytes after the magic bytes; the other
/// fields are 0.
fn read_fixed_fields(data: &mut Bytes, Ghost(s): Ghost<Seq<u8>>) -> (h: HeaderData)
    requires
        bytes_view(*old(data)) == s.skip(4),
        s.len() >= 64,
    ensures
        bytes_view(*final(data)) == s.skip(0x40),
        fixed_fields_read(h, s),
        forall|i: int| 0 <= i < 53 ==> #[trigger] opt_value(h, i) == 0,
        extra_header_empty(h.extra_header),
{
    let mut h = HeaderData::default();
    proof {
        reveal(opt_values);
    }
    assert(opt_values(h) =~= Seq::new(53, |i: int| 0u32));
    h.end_of_file_offset = buf_get_u32_le(data);
    let v0 = buf_get_u8(data);
    let v1 = buf_get_u8(data);
    let v2 = buf_get_u8(data);
    let v3 = buf_get_u8(data);
    let version_bytes: Vec<u8> = vec![v0, v1, v2, v3];
    proof {
        assert(version_bytes@ =~= s.subrange(0x08, 0x0C));
        lemma_bcd4_fits(version_bytes@);
    }
    h.version = bcd_from_bytes(version_bytes.as_slice());
    h.sn76489_clock = buf_get_u32_le(data);
    h.ym2413_clock = buf_get_u32_le(data);
    h.gd3_offset = buf_get_u32_le(data);
    h.total_nb_samples = buf_get_u32_le(data);
    h.loop_offset = buf_get_u32_le(data);
    h.loop_nb_samples = buf_get_u32_le(data);
    h.rate = buf_get_u32_le(data);
    h.sn76489_feedback = buf_get_u16_le(data);
    h.sn76489_shift_register_width = buf_get_u8(data);
    h.sn76489_flags = buf_get_u8(data);
    h.ym2612_clock = buf_get_u32_le(data);
    h.ym2151_clock = buf_get_u32_le(data);
    h.vgm_data_offset = buf_get_u32_le(data);
    h.sega_pcm_clock = buf_get_u32_le(data);
    h.spcm_interface = buf_get_u32_le(data);
    proof {
        assert(bytes_view(*data) =~= s.skip(0x40));
        assert(opt_values(h) =~= Seq::new(53, |i: int| 0u32));
    }
    h
}


/// What reading a header from `s` does: with `config` `None`, as
/// `HeaderData::from_bytes` (which refuses fewer than 64 bytes); otherwise
/// within the limits of `config`. A `Done` step consumed the header, with
/// its extra header where there is one.
pub open spec fn header_step(s: Seq<u8>, config: Option<ParserConfig>) -> Step {
    if s.len() < 64 {
        if config is None {
            Step::Refused { len: 0 }
        } else {
            Step::Stuck
        }
    } else if !magic_ok(s) {
        Step::Refused { len: 4 }
    } else if vgm_start(s) > u32::MAX {
        Step::Refused { len: 0x40 }
    } else {
        let j = header_stop(s, 0);
        if j < 41 {
            if s.len() < opt_offset(j) {
                Step::Stuck
            } else {
                Step::Done { len: opt_offset(j) as nat }
            }
        } else if s.len() < 0xC0 {
            Step::Stuck
        } else if seq_le32(s, 0xBC) != 0 && extra_start(s) > u32::MAX {
            Step::Refused { len: 0xC0 }
        } else if s.len() < opt_offset(j) {
            Step::Stuck
        } else if j < 53 && opt_offset(j) != vgm_start(s) {
            extra_step(s, opt_offset(j), config)
        } else {
            Step::Done { len: opt_offset(j) as nat }
        }
    }
}

/// An `IntegerOverflow` error with the given texts.
pub open spec fn is_overflow_error(e: VgmError, operation: Seq<char>, details: Seq<char>) -> bool {
    e matches VgmError::IntegerOverflow { operation: o, details: d } && o@ == operation && d@ == details
}

/// The error with which reading a header from `s` is refused.
pub open spec fn header_error(s: Seq<u8>, config: Option<ParserConfig>, e: VgmError) -> bool {
    if s.len() < 64 {
        e == (VgmError::TruncatedFile { expected: 64, actual: s.len() as usize })
    } else if !magic_ok(s) {
        e matches VgmError::InvalidMagicBytes { expected, found, offset } && expected@ == "Vgm "@
            && found@ == utf8_lossy_text(s.take(4)) && offset == 0
    } else if vgm_start(s) > u32::MAX {
        is_overflow_error(
            e,
            "VGM data position calculation"@,
            "vgm_data_offset "@ + decimal_text(seq_le32(s, 0x34) as nat) + " + 0x34"@,
        )
    } else if header_stop(s, 0) >= 41 && seq_le32(s, 0xBC) != 0 && extra_start(s) > u32::MAX {
        is_overflow_error(
            e,
            "Extra header position calculation"@,
            "extra_header_offset "@ + decimal_text(seq_le32(s, 0xBC) as nat) + " + 0xBC"@,
        )
    } else {
        extra_error(s, opt_offset(header_stop(s, 0)), config, e)
    }
}

/// Whether `h` is the header read from `s`.
pub open spec fn header_read(h: HeaderData, s: Seq<u8>) -> bool {
    let j = header_stop(s, 0);
    &&& fixed_fields_read(h, s)
    &&& opt_fields_read(h, s, j)
    &&& if j < 53 && opt_offset(j) != vgm_start(s) {
        extra_read(h.extra_header, s, opt_offset(j))
    } else {
        extra_header_empty(h.extra_header)
    }
}

/// The error for an offset whose position overflows.
pub(crate) fn overflow_error(operation: &str, field: &str, value: u32, tail: &str) -> (e: VgmError)
    ensures
        is_overflow_error(e, operation@, field@ + decimal_text(value as nat) + tail@),
{
    let number = decimal_string(value as u64);
    let head = joined(field, number.as_str());
    VgmError::IntegerOverflow { operation: String::from_str(operation), details: joined(head.as_str(), tail) }
}

/// Reads a header of at least 64 bytes.
#[verifier::spinoff_prover]
#[verifier::rlimit(80)]
fn read_header(data: &mut Bytes, config: Option<&ParserConfig>) -> (r: VgmResult<HeaderData>)
    requires
        bytes_view(*old(data)).len() >= 64,
        bytes_view(*old(data)).len() <= isize::MAX,
        !(header_step(bytes_view(*old(data)), config_of(config)) is Stuck),
    ensures
        ({
            let s = bytes_view(*old(data));
            let st = header_step(s, config_of(config));
            &&& bytes_view(*final(data)) == s.skip(step_len(st) as int)
            &&& st is Done ==> r is Ok && header_read(r->Ok_0, s)
            &&& st is Refused ==> r is Err && header_error(s, config_of(config), r->Err_0)
        }),
{
    let ghost s = bytes_view(*data);
    let m0 = buf_get_u8(data);
    let m1 = buf_get_u8(data);
    let m2 = buf_get_u8(data);
    let m3 = buf_get_u8(data);
    proof {
        assert(bytes_view(*data) =~= s.skip(4));
    }
    if !(m0 == 0x56 && m1 == 0x67 && m2 == 0x6d && m3 == 0x20) {
        let magic: Vec<u8> = vec![m0, m1, m2, m3];
        assert(magic@ =~= s.take(4));
        let found = string_from_utf8_lossy(magic.as_slice());
        return Err(VgmError::InvalidMagicBytes { expected: String::from_str("Vgm "), found, offset: 0 });
    }
    let mut header = read_fixed_fields(data, Ghost(s));
    let pos_start_vgm: u32 = match header.vgm_data_offset.checked_add(0x34) {
        Some(v) => v,
        None => {
            return Err(
                overflow_error(
                    "VGM data position calculation",
                    "vgm_data_offset ",
                    header.vgm_data_offset,
                    " + 0x34",
                ),
            );
        },
    };
    let mut pos_extra_header: Option<u64> = None;
    let mut i: usize = 0;
    while i < 53
        invariant
            s == bytes_view(*old(data)),
            s.len() >= 64,
            s.len() <= isize::MAX,
            magic_ok(s),
            !(header_step(s, config_of(config)) is Stuck),
            pos_start_vgm == vgm_start(s),
            i <= 53,
            bytes_view(*data) == s.skip(opt_offset(i as int)),
            fixed_fields_read(header, s),
            extra_header_empty(header.extra_header),
            forall|j: int|
                0 <= j < 53 ==> #[trigger] opt_value(header, j) == if j < i {
                    opt_read(s, j)
                } else {
                    0
                },
            forall|j: int| 0 <= j < i ==> !stops_at(s, j),
            i <= 40 ==> pos_extra_header is None,
            i > 40 ==> pos_extra_header == if seq_le32(s, 0xBC) == 0 {
                None::<u64>
            } else {
                Some(extra_start(s) as u64)
            },
            i > 40 && seq_le32(s, 0xBC) != 0 ==> extra_start(s) <= u32::MAX,
        decreases 53 - i,
    {
        let off = opt_offset_exec(i);
        proof {
            lemma_header_stop_from(s, i as int);
            lemma_header_stop_range(s, i as int);
            lemma_opt_offset_next(i as int);
        }
        if off == pos_start_vgm as usize {
            proof {
                assert(header_stop(s, 0) == i);
                assert(opt_fields_read(header, s, i as int));
                assert(header_read(header, s));
                assert(header_step(s, config_of(config)) == Step::Done { len: opt_offset(i as int) as nat });
            }
            return Ok(header);
        }
        if let Some(pe) = pos_extra_header {
            if off as u64 == pe {
                proof {
                    assert(header_stop(s, 0) == i);
                    assert(opt_offset(i as int) == pe);
                    assert(opt_offset(i as int) != vgm_start(s));
                    assert(header_step(s, config_of(config)) == extra_step(
                        s,
                        opt_offset(i as int),
                        config_of(config),
                    ));
                }
                let extra = parse_extra_header(data, Ghost(s), pe, config)?;
                let ghost before = header;
                header.extra_header = extra;
                proof {
                    lemma_opt_values_ignore_extra(before, header);
                    assert forall|j: int| 0 <= j < 53 implies #[trigger] opt_value(header, j) == if j
                        < i {
                        opt_read(s, j)
                    } else {
                        0
                    } by {
                        assert(opt_value(before, j) == opt_value(header, j));
                    }
                    assert(fixed_fields_read(header, s));
                }
                return Ok(header);
            }
        }
        proof {
            assert(!stops_at(s, i as int));
            assert(header_stop(s, i as int) == header_stop(s, i + 1));
            lemma_header_stop_range(s, i + 1);
            lemma_opt_offset_mono(i + 1, header_stop(s, i + 1));
        }
        let v: u32 = if opt_wide_exec(i) {
            buf_get_u32_le(data)
        } else {
            buf_get_u8(data) as u32
        };
        let ghost before = header;
        set_opt(&mut header, i, v);
        proof {
            assert(bytes_view(*data) =~= s.skip(opt_offset(i + 1)));
            assert(v == opt_read(s, i as int) || opt_reserved(i as int));
            assert forall|j: int| 0 <= j < 53 implies #[trigger] opt_value(header, j) == if j < i + 1 {
                opt_read(s, j)
            } else {
                0
            } by {
                reveal(opt_values);
                assert(opt_values(before).len() == 53);
                if j != i {
                    assert(opt_value(header, j) == opt_value(before, j));
                }
            }
        }
        if i == 40 && v != 0 {
            match v.checked_add(0xBC) {
                Some(pe) => {
                    pos_extra_header = Some(pe as u64);
                },
                None => {
                    return Err(
                        overflow_error(
                            "Extra header position calculation",
                            "extra_header_offset ",
                            v,
                            " + 0xBC",
                        ),
                    );
                },
            }
        }
        i += 1;
    }
    proof {
        lemma_header_stop_from(s, 53);
    }
    Ok(header)
}


/// Whether a header read with the limits `config` would go past the
/// parsing depth limit of `tracker`.
pub open spec fn depth_refused(t: ResourceTracker, config: ParserConfig) -> bool {
    t.parsing_depth + 1 > config.max_parsing_depth
}

impl HeaderData {
    /// Reads a header: at least 64 bytes, starting with "Vgm ", then the
    /// fields in file order until the VGM data or the extra header starts.
    pub fn from_bytes(data: &mut Bytes) -> (r: VgmResult<HeaderData>)
        requires
            bytes_view(*old(data)).len() <= isize::MAX,
            !(header_step(bytes_view(*old(data)), None) is Stuck),
        ensures
            ({
                let s = bytes_view(*old(data));
                let st = header_step(s, None);
                &&& bytes_view(*final(data)) == s.skip(step_len(st) as int)
                &&& st is Done ==> r is Ok && header_read(r->Ok_0, s)
                &&& st is Refused ==> r is Err && header_error(s, None, r->Err_0)
            }),
    {
        let len = buf_len(data);
        if len < 64 {
            return Err(VgmError::TruncatedFile { expected: 64, actual: len });
        }
        read_header(data, None)
    }

    /// Reads a header within the limits of `config`, one parsing level
    /// deeper in `tracker`; the tracker's depth is restored afterwards.
    pub fn from_bytes_with_config(data: &mut Bytes, config: &ParserConfig, tracker: &mut ResourceTracker) -> (r:
        VgmResult<HeaderData>)
        requires
            old(tracker).parsing_depth < u32::MAX,
            bytes_view(*old(data)).len() <= isize::MAX,
            !depth_refused(*old(tracker), *config) ==> !(header_step(
                bytes_view(*old(data)),
                Some(*config),
            ) is Stuck),
        ensures
            ({
                let s = bytes_view(*old(data));
                let st = header_step(s, Some(*config));
                if depth_refused(*old(tracker), *config) {
                    &&& r is Err
                    &&& r->Err_0 == (VgmError::ParseStackOverflow {
                        position: 0,
                        max_depth: config.max_parsing_depth as usize,
                    })
                    &&& bytes_view(*final(data)) == s
                    &&& *final(tracker) == (ResourceTracker {
                        parsing_depth: (old(tracker).parsing_depth + 1) as u32,
                        ..*old(tracker)
                    })
                } else {
                    &&& *final(tracker) == *old(tracker)
                    &&& bytes_view(*final(data)) == s.skip(step_len(st) as int)
                    &&& st is Done ==> r is Ok && header_read(r->Ok_0, s)
                    &&& st is Refused ==> r is Err && header_error(s, Some(*config), r->Err_0)
                }
            }),
    {
        tracker.enter_parsing_context(config)?;
        let result = Self::from_bytes_internal_with_config(data, config, tracker);
        tracker.exit_parsing_context();
        result
    }

    fn from_bytes_internal_with_config(data: &mut Bytes, config: &ParserConfig, _tracker: &mut ResourceTracker) -> (r:
        VgmResult<HeaderData>)
        requires
            bytes_view(*old(data)).len() <= isize::MAX,
            !(header_step(bytes_view(*old(data)), Some(*config)) is Stuck),
        ensures
            *final(_tracker) == *old(_tracker),
            ({
                let s = bytes_view(*old(data));
                let st = header_step(s, Some(*config));
                &&& bytes_view(*final(data)) == s.skip(step_len(st) as int)
                &&& st is Done ==> r is Ok && header_read(r->Ok_0, s)
                &&& st is Refused ==> r is Err && header_error(s, Some(*config), r->Err_0)
            }),
    {
        read_header(data, Some(config))
    }
}


/// Bytes 0x00-0x0F of a written header (longer or shorter where the
/// version's BCD bytes are not four).
pub open spec fn fixed_group0(h: HeaderData) -> Seq<u8> {
    seq![0x56u8, 0x67u8, 0x6Du8, 0x20u8] + u32_le_bytes(h.end_of_file_offset) + bcd_encoding(
        h.version as nat,
    ) + u32_le_bytes(h.sn76489_clock)
}

/// Bytes 0x10-0x1F of a written header.
pub open spec fn fixed_group1(h: HeaderData) -> Seq<u8> {
    u32_le_bytes(h.ym2413_clock) + u32_le_bytes(h.gd3_offset) + u32_le_bytes(h.total_nb_samples)
        + u32_le_bytes(h.loop_offset)
}

/// Bytes 0x20-0x2F of a written header.
pub open spec fn fixed_group2(h: HeaderData) -> Seq<u8> {
    u32_le_bytes(h.loop_nb_samples) + u32_le_bytes(h.rate) + u16_le_bytes(h.sn76489_feedback) + seq![
        h.sn76489_shift_register_width,
        h.sn76489_flags,
    ] + u32_le_bytes(h.ym2612_clock)
}

/// Bytes 0x30-0x3F of a written header.
pub open spec fn fixed_group3(h: HeaderData) -> Seq<u8> {
    u32_le_bytes(h.ym2151_clock) + u32_le_bytes(h.vgm_data_offset) + u32_le_bytes(h.sega_pcm_clock)
        + u32_le_bytes(h.spcm_interface)
}

/// The first 64 bytes of a written header (longer or shorter where the
/// version's BCD bytes are not four).
pub open spec fn fixed_bytes(h: HeaderData) -> Seq<u8> {
    fixed_group0(h) + fixed_group1(h) + fixed_group2(h) + fixed_group3(h)
}

/// The bytes of the `i`th optional field.
pub open spec fn opt_bytes(h: HeaderData, i: int) -> Seq<u8> {
    if opt_wide(i) {
        u32_le_bytes(opt_value(h, i))
    } else {
        seq![opt_value(h, i) as u8]
    }
}

/// The bytes of the optional fields before the `k`th.
pub open spec fn opt_bytes_upto(h: HeaderData, k: int) -> Seq<u8>
    decreases k,
{
    if k <= 0 {
        Seq::empty()
    } else {
        opt_bytes_upto(h, k - 1) + opt_bytes(h, k - 1)
    }
}

/// The position at which a header says that the VGM data starts.
pub open spec fn data_pos(h: HeaderData) -> int {
    h.vgm_data_offset + 0x34
}

/// The position at which a header says that its extra header starts.
pub open spec fn extra_pos(h: HeaderData) -> int {
    h.extra_header_offset + 0xBC
}

/// The buffer position before the `i`th optional field when the header is
/// written after `b0` bytes.
pub open spec fn write_pos(h: HeaderData, b0: int, i: int) -> int {
    b0 + fixed_bytes(h).len() + opt_offset(i) - 0x40
}

/// Whether writing stops before the `i`th optional field.
pub open spec fn write_stops_at(h: HeaderData, b0: int, i: int) -> bool {
    write_pos(h, b0, i) == data_pos(h) || (i >= 41 && h.extra_header_offset != 0 && write_pos(h, b0, i)
        == extra_pos(h))
}

/// The index of the first optional field, from the `i`th on, before which
/// writing stops; 53 where it writes them all.
pub open spec fn write_stop(h: HeaderData, b0: int, i: int) -> int
    decreases 53 - i,
{
    if i >= 53 {
        53
    } else if write_stops_at(h, b0, i) {
        i
    } else {
        write_stop(h, b0, i + 1)
    }
}

/// `n` zero bytes (none for `n` <= 0).
pub open spec fn zeros(n: int) -> Seq<u8> {
    Seq::new(if n > 0 { n as nat } else { 0 }, |k: int| 0u8)
}

/// The bytes of chip clock entries.
pub open spec fn clock_entries_bytes(v: Seq<ChipClockEntry>) -> Seq<u8>
    decreases v.len(),
{
    if v.len() == 0 {
        Seq::empty()
    } else {
        clock_entries_bytes(v.drop_last()) + seq![v.last().chip_id] + u32_le_bytes(v.last().clock)
    }
}

/// The bytes of chip volume entries.
pub open spec fn vol_entries_bytes(v: Seq<ChipVolumeEntry>) -> Seq<u8>
    decreases v.len(),
{
    if v.len() == 0 {
        Seq::empty()
    } else {
        vol_entries_bytes(v.drop_last()) + seq![v.last().chip_id, v.last().flags] + u16_le_bytes(
            v.last().volume,
        )
    }
}

/// The bytes of the chip clocks: their count (the low byte of it), then the entries.
pub open spec fn clock_section_bytes(v: Seq<ChipClockEntry>) -> Seq<u8> {
    seq![v.len() as u8] + clock_entries_bytes(v)
}

/// The bytes of the chip volumes: their count (the low byte of it), then the entries.
pub open spec fn vol_section_bytes(v: Seq<ChipVolumeEntry>) -> Seq<u8> {
    seq![v.len() as u8] + vol_entries_bytes(v)
}

/// The bytes of an extra header: its three fields, then the sections that
/// its offsets call for, chip volumes first where their offset is 4.
pub open spec fn extra_bytes(x: ExtraHeaderData) -> Seq<u8> {
    let head = u32_le_bytes(x.header_size) + u32_le_bytes(x.chip_clock_offset) + u32_le_bytes(
        x.chip_vol_offset,
    );
    let c = clock_section_bytes(x.chip_clock_entries@);
    let v = vol_section_bytes(x.chip_volume_entries@);
    if x.chip_clock_offset != 0 {
        if x.chip_vol_offset == 0 {
            head + c
        } else if x.chip_vol_offset == 4 {
            head + v + c
        } else {
            head + c + v
        }
    } else if x.chip_vol_offset != 0 {
        head + v
    } else {
        head
    }
}

/// The bytes that writing header `h` after `b0` bytes appends: the fields
/// until the VGM data or the extra header starts, the extra header where it
/// does, and zeros up to the start of the VGM data.
pub open spec fn header_bytes(h: HeaderData, b0: int) -> Seq<u8> {
    let j = write_stop(h, b0, 0);
    let body = fixed_bytes(h) + opt_bytes_upto(h, j);
    if j < 53 && write_pos(h, b0, j) == data_pos(h) {
        body
    } else if j < 53 {
        body + extra_bytes(h.extra_header) + zeros(
            data_pos(h) - (b0 + body.len() + extra_bytes(h.extra_header).len()),
        )
    } else {
        body + zeros(data_pos(h) - (b0 + body.len()))
    }
}

/// Whether the positions of a header can be computed without overflow.
pub open spec fn header_positions_fit(h: HeaderData) -> bool {
    &&& h.vgm_data_offset + 0x34 <= u32::MAX
    &&& h.extra_header_offset != 0 ==> h.extra_header_offset + 0xBC <= u32::MAX
}

/// Whether `HeaderData::to_bytes` can place the data start and the extra
/// header of `h` (their positions fit in 32 bits).
pub fn positions_fit(h: &HeaderData) -> (b: bool)
    ensures
        b == header_positions_fit(*h),
{
    h.vgm_data_offset <= u32::MAX - 0x34 && (h.extra_header_offset == 0 || h.extra_header_offset <= u32::MAX - 0xBC)
}

impl HeaderData {
    /// The `i`th optional field.
    fn opt_field(&self, i: usize) -> (v: u32)
        requires
            i < 53,
        ensures
            v == opt_value(*self, i as int),
    {
        proof {
            reveal(opt_values);
        }
        match i {
            0 => self.rf5_c68_clock,
            1 => self.ym2203_clock,
            2 => self.ym2608_clock,
            3 => self.ym2610_b_clock,
            4 => self.ym3812_clock,
            5 => self.ym3526_clock,
            6 => self.y8950_clock,
            7 => self.ymf262_clock,
            8 => self.ymf278_b_clock,
            9 => self.ymf271_clock,
            10 => self.ymz280_b_clock,
            11 => self.rf5_c164_clock,
            12 => self.pwm_clock,
            13 => self.ay8910_clock,
            14 => self.ay8910_chip_type as u32,
            15 => self.ay8910_flags as u32,
            16 => self.ym2203_ay8910_flags as u32,
            17 => self.ym2608_ay8910_flags as u32,
            18 => self.volume_modifier as u32,
            20 => self.loop_base as u32,
            21 => self.loop_modifier as u32,
            22 => self.gb_dmg_clock,
            23 => self.nes_apu_clock,
            24 => self.multi_pcm_clock,
            25 => self.u_pd7759_clock,
            26 => self.okim6258_clock,
            27 => self.okim6258_flags as u32,
            28 => self.k054539_flags as u32,
            29 => self.c140_chip_type as u32,
            31 => self.okim6295_clock,
            32 => self.k051649_k052539_clock,
            33 => self.k054539_clock,
            34 => self.hu_c6280_clock,
            35 => self.c140_clock,
            36 => self.k053260_clock,
            37 => self.pokey_clock,
            38 => self.qsound_clock,
            39 => self.scsp_clock,
            40 => self.extra_header_offset,
            41 => self.wonder_swan_clock,
            42 => self.vsu_clock,
            43 => self.saa1099_clock,
            44 => self.es5503_clock,
            45 => self.es5506_clock,
            46 => self.es5503_nb_channels as u32,
            47 => self.es5505_es5506_nb_channels as u32,
            48 => self.c352_clock_divider as u32,
            50 => self.x1010_clock,
            51 => self.c352_clock,
            52 => self.ga20_clock,
            _ => 0,
        }
    }
}

/// Appends the little-endian bytes of a `u32`.
fn put_u32_le(buffer: &mut BytesMut, v: u32)
    ensures
        bytes_mut_view(*final(buffer)) == bytes_mut_view(*old(buffer)) + u32_le_bytes(v),
{
    let b: Vec<u8> = vec![(v & 0xff) as u8, ((v >> 8u32) & 0xff) as u8, ((v >> 16u32) & 0xff) as u8, ((v >> 24u32) & 0xff) as u8];
    out_put_slice(buffer, b.as_slice());
}

/// Appends the little-endian bytes of a `u16`.
fn put_u16_le(buffer: &mut BytesMut, v: u16)
    ensures
        bytes_mut_view(*final(buffer)) == bytes_mut_view(*old(buffer)) + u16_le_bytes(v),
{
    let b: Vec<u8> = vec![(v & 0xff) as u8, ((v >> 8u16) & 0xff) as u8];
    out_put_slice(buffer, b.as_slice());
}

/// Appends zeros until the buffer holds `end` bytes.
fn pad_to(buffer: &mut BytesMut, end: usize)
    ensures
        bytes_mut_view(*final(buffer)) == bytes_mut_view(*old(buffer)) + zeros(
            end - bytes_mut_view(*old(buffer)).len(),
        ),
{
    let ghost start = bytes_mut_view(*buffer);
    while out_len(buffer) < end
        invariant
            start == bytes_mut_view(*old(buffer)),
            bytes_mut_view(*buffer) == start + zeros(bytes_mut_view(*buffer).len() - start.len()),
            bytes_mut_view(*buffer).len() >= start.len(),
            bytes_mut_view(*buffer).len() <= if start.len() > end {
                start.len() as int
            } else {
                end as int
            },
        decreases end - bytes_mut_view(*buffer).len(),
    {
        out_put_u8(buffer, 0x00);
        assert(bytes_mut_view(*buffer) =~= start + zeros(bytes_mut_view(*buffer).len() - start.len()));
    }
    assert(zeros(bytes_mut_view(*buffer).len() - start.len()) =~= zeros(end - start.len()));
}


/// Appends the chip clocks: their count, then each entry.
fn write_clock_section(buffer: &mut BytesMut, entries: &Vec<ChipClockEntry>)
    ensures
        bytes_mut_view(*final(buffer)) == bytes_mut_view(*old(buffer)) + clock_section_bytes(entries@),
{
    let ghost start = bytes_mut_view(*buffer);
    out_put_u8(buffer, entries.len() as u8);
    let mut k: usize = 0;
    while k < entries.len()
        invariant
            k <= entries@.len(),
            bytes_mut_view(*buffer) == start + seq![entries@.len() as u8] + clock_entries_bytes(
                entries@.take(k as int),
            ),
        decreases entries@.len() - k,
    {
        let e = entries[k];
        out_put_u8(buffer, e.chip_id);
        put_u32_le(buffer, e.clock);
        proof {
            assert(entries@.take(k + 1).drop_last() =~= entries@.take(k as int));
        }
        k += 1;
    }
    assert(entries@.take(k as int) =~= entries@);
}

/// Appends the chip volumes: their count, then each entry.
fn write_vol_section(buffer: &mut BytesMut, entries: &Vec<ChipVolumeEntry>)
    ensures
        bytes_mut_view(*final(buffer)) == bytes_mut_view(*old(buffer)) + vol_section_bytes(entries@),
{
    let ghost start = bytes_mut_view(*buffer);
    out_put_u8(buffer, entries.len() as u8);
    let mut k: usize = 0;
    while k < entries.len()
        invariant
            k <= entries@.len(),
            bytes_mut_view(*buffer) == start + seq![entries@.len() as u8] + vol_entries_bytes(
                entries@.take(k as int),
            ),
        decreases entries@.len() - k,
    {
        let e = entries[k];
        out_put_u8(buffer, e.chip_id);
        out_put_u8(buffer, e.flags);
        put_u16_le(buffer, e.volume);
        proof {
            assert(entries@.take(k + 1).drop_last() =~= entries@.take(k as int));
        }
        k += 1;
    }
    assert(entries@.take(k as int) =~= entries@);
}

impl HeaderData {
    /// Appends the extra header, then zeros up to the start of the VGM data.
    fn write_extra_header(&self, buffer: &mut BytesMut, vgm_data_pos: usize)
        ensures
            bytes_mut_view(*final(buffer)) == bytes_mut_view(*old(buffer)) + extra_bytes(self.extra_header)
                + zeros(
                vgm_data_pos - (bytes_mut_view(*old(buffer)).len() + extra_bytes(self.extra_header).len()),
            ),
    {
        let ghost start = bytes_mut_view(*buffer);
        let x = &self.extra_header;
        put_u32_le(buffer, x.header_size);
        put_u32_le(buffer, x.chip_clock_offset);
        put_u32_le(buffer, x.chip_vol_offset);
        if x.chip_clock_offset != 0 {
            if x.chip_vol_offset == 0 {
                write_clock_section(buffer, &x.chip_clock_entries);
            } else if x.chip_vol_offset == 4 {
                write_vol_section(buffer, &x.chip_volume_entries);
                write_clock_section(buffer, &x.chip_clock_entries);
            } else {
                write_clock_section(buffer, &x.chip_clock_entries);
                write_vol_section(buffer, &x.chip_volume_entries);
            }
        } else if x.chip_vol_offset != 0 {
            write_vol_section(buffer, &x.chip_volume_entries);
        }
        assert(bytes_mut_view(*buffer) =~= start + extra_bytes(self.extra_header));
        pad_to(buffer, vgm_data_pos);
    }
}


proof fn lemma_write_stop_from(h: HeaderData, b0: int, i: int)
    requires
        0 <= i <= 53,
        forall|j: int| 0 <= j < i ==> !write_stops_at(h, b0, j),
    ensures
        write_stop(h, b0, 0) == write_stop(h, b0, i),
    decreases i,
{
    if i > 0 {
        lemma_write_stop_from(h, b0, i - 1);
    }
}

impl HeaderData {
    /// Appends the header: the fields in file order until the VGM data or
    /// the extra header starts (positions are counted in the buffer), the
    /// extra header where it starts first, and zeros up to the VGM data.
    pub fn to_bytes(&self, buffer: &mut BytesMut) -> (r: VgmResult<()>)
        requires
            header_positions_fit(*self),
        ensures
            r is Ok,
            bytes_mut_view(*final(buffer)) == bytes_mut_view(*old(buffer)) + header_bytes(
                *self,
                bytes_mut_view(*old(buffer)).len() as int,
            ),
    {
        let ghost b0 = bytes_mut_view(*buffer).len() as int;
        let ghost start = bytes_mut_view(*buffer);
        let vgm_data_pos = (self.vgm_data_offset + 0x34) as usize;
        let extra_header_pos: Option<usize> = if self.extra_header_offset == 0 {
            None
        } else {
            Some((self.extra_header_offset + 0xBC) as usize)
        };
        let magic: Vec<u8> = vec![0x56, 0x67, 0x6d, 0x20];
        out_put_slice(buffer, magic.as_slice());
        put_u32_le(buffer, self.end_of_file_offset);
        let version_bytes = crate::utils::decimal_to_bcd(self.version);
        out_put_slice(buffer, version_bytes.as_slice());
        put_u32_le(buffer, self.sn76489_clock);
        put_u32_le(buffer, self.ym2413_clock);
        put_u32_le(buffer, self.gd3_offset);
        put_u32_le(buffer, self.total_nb_samples);
        put_u32_le(buffer, self.loop_offset);
        put_u32_le(buffer, self.loop_nb_samples);
        put_u32_le(buffer, self.rate);
        put_u16_le(buffer, self.sn76489_feedback);
        out_put_u8(buffer, self.sn76489_shift_register_width);
        out_put_u8(buffer, self.sn76489_flags);
        put_u32_le(buffer, self.ym2612_clock);
        put_u32_le(buffer, self.ym2151_clock);
        put_u32_le(buffer, self.vgm_data_offset);
        put_u32_le(buffer, self.sega_pcm_clock);
        put_u32_le(buffer, self.spcm_interface);
        assert(bytes_mut_view(*buffer) =~= start + fixed_bytes(*self));
        let mut i: usize = 0;
        while i < 53
            invariant
                start == bytes_mut_view(*old(buffer)),
                b0 == start.len(),
                header_positions_fit(*self),
                vgm_data_pos == data_pos(*self),
                extra_header_pos == if self.extra_header_offset == 0 {
                    None::<usize>
                } else {
                    Some(extra_pos(*self) as usize)
                },
                i <= 53,
                bytes_mut_view(*buffer) == start + fixed_bytes(*self) + opt_bytes_upto(*self, i as int),
                forall|j: int| 0 <= j < i ==> !write_stops_at(*self, b0, j),
            decreases 53 - i,
        {
            proof {
                lemma_write_stop_from(*self, b0, i as int);
                lemma_opt_offset_next(i as int);
                assert(opt_bytes_upto(*self, i as int).len() == opt_offset(i as int) - 0x40) by {
                    lemma_opt_bytes_len(*self, i as int);
                }
            }
            let pos = out_len(buffer);
            if pos == vgm_data_pos {
                proof {
                    assert(write_stops_at(*self, b0, i as int));
                    assert(write_stop(*self, b0, i as int) == i);
                }
                return Ok(());
            }
            if let Some(ep) = extra_header_pos {
                if i >= 41 && pos == ep {
                    proof {
                        assert(write_stops_at(*self, b0, i as int));
                        assert(write_stop(*self, b0, i as int) == i);
                    }
                    self.write_extra_header(buffer, vgm_data_pos);
                    assert(bytes_mut_view(*buffer) =~= start + header_bytes(*self, b0));
                    return Ok(());
                }
            }
            let v = self.opt_field(i);
            if opt_wide_exec(i) {
                put_u32_le(buffer, v);
            } else {
                proof {
                    reveal(opt_values);
                }
                out_put_u8(buffer, v as u8);
            }
            proof {
                assert(opt_bytes_upto(*self, i + 1) == opt_bytes_upto(*self, i as int) + opt_bytes(*self, i as int));
            }
            i += 1;
        }
        proof {
            lemma_write_stop_from(*self, b0, 53);
        }
        pad_to(buffer, vgm_data_pos);
        assert(bytes_mut_view(*buffer) =~= start + header_bytes(*self, b0));
        Ok(())
    }
}

proof fn lemma_opt_bytes_len(h: HeaderData, k: int)
    requires
        0 <= k <= 53,
    ensures
        opt_bytes_upto(h, k).len() == opt_offset(k) - 0x40,
    decreases k,
{
    if k > 0 {
        lemma_opt_bytes_len(h, k - 1);
        lemma_opt_offset_next(k - 1);
    }
}


/// Versions from 1.00 to 99.99 take four BCD bytes.
proof fn lemma_bcd_four_bytes(n: u32)
    requires
        100 <= n <= 9999,
    ensures
        bcd_encoding(n as nat).len() == 4,
{
    let a = bcd_digits(n as nat);
    let b = bcd_digits(n as nat / 100);
    assert(1 <= n as nat / 100 < 100);
    assert(n as nat / 100 / 100 == 0);
    assert(bcd_digits(n as nat / 100 / 100).len() == 0);
    assert(b.len() == 1);
    assert(a.len() == 2);
}

/// Within the optional fields written, each field's bytes stand at its offset.
proof fn lemma_opt_bytes_at(h: HeaderData, k: int, i: int, t: int)
    requires
        0 <= i < k <= 53,
        0 <= t < opt_bytes(h, i).len(),
    ensures
        opt_bytes_upto(h, k)[opt_offset(i) - 0x40 + t] == opt_bytes(h, i)[t],
    decreases k,
{
    lemma_opt_bytes_len(h, k - 1);
    lemma_opt_bytes_len(h, i);
    lemma_opt_offset_next(i);
    if i < k - 1 {
        lemma_opt_bytes_at(h, k - 1, i, t);
        lemma_opt_offset_next(k - 1);
        lemma_opt_offset_mono(i + 1, k - 1);
    }
}

/// The narrow optional fields hold bytes.
proof fn lemma_narrow_fields(h: HeaderData, i: int)
    requires
        0 <= i < 53,
        !opt_wide(i),
    ensures
        opt_value(h, i) <= 0xFF,
{
    reveal(opt_values);
}


/// The optional fields written before the stop read back as their values.
proof fn lemma_opt_read_written(h: HeaderData, s: Seq<u8>)
    requires
        fixed_bytes(h).len() == 0x40,
        s.len() >= 0x40 + opt_bytes_upto(h, write_stop(h, 0, 0)).len(),
        forall|k: int|
            0 <= k < 0x40 + opt_bytes_upto(h, write_stop(h, 0, 0)).len() ==> s[k] == (fixed_bytes(h)
                + opt_bytes_upto(h, write_stop(h, 0, 0)))[k],
        0 <= write_stop(h, 0, 0) <= 53,
    ensures
        forall|i: int| 0 <= i < write_stop(h, 0, 0) ==> #[trigger] opt_read(s, i) == opt_value(h, i),
{
    let j = write_stop(h, 0, 0);
    let body = fixed_bytes(h) + opt_bytes_upto(h, j);
    lemma_opt_bytes_len(h, j);
    assert forall|i: int| 0 <= i < j implies #[trigger] opt_read(s, i) == opt_value(h, i) by {
        lemma_opt_offset_next(i);
        lemma_opt_offset_mono(i + 1, j);
        let o = opt_offset(i);
        if opt_wide(i) {
            assert forall|t: int| 0 <= t < 4 implies s[o + t] == u32_le_bytes(opt_value(h, i))[t] by {
                lemma_opt_bytes_at(h, j, i, t);
                assert(s[o + t] == body[o + t]);
                assert(body[o + t] == opt_bytes_upto(h, j)[o - 0x40 + t]);
            }
            lemma_u32_bytes(opt_value(h, i), s, o);
        } else {
            lemma_opt_bytes_at(h, j, i, 0);
            assert(s[o] == body[o]);
            assert(body[o] == opt_bytes_upto(h, j)[o - 0x40]);
            lemma_narrow_fields(h, i);
            if opt_reserved(i) {
                reveal(opt_values);
            }
        }
    }
}

/// Writing a header with a version from 1.00 to 99.99 into an empty buffer
/// and reading it back, where no extra header is written, gives the header's
/// fixed fields and its fields before the start of the VGM data; the fields
/// from there on read as 0. So a header whose fields past the start of the
/// VGM data are 0 reads back as itself.
pub proof fn lemma_header_round_trip(h: HeaderData, rest: Seq<u8>)
    requires
        header_positions_fit(h),
        100 <= h.version <= 9999,
        extra_header_empty(h.extra_header),
        write_stop(h, 0, 0) < 53 ==> opt_offset(write_stop(h, 0, 0)) == data_pos(h),
    ensures
        header_step(header_bytes(h, 0) + rest, None) == (Step::Done {
            len: opt_offset(write_stop(h, 0, 0)) as nat,
        }),
        fixed_fields_read(h, header_bytes(h, 0) + rest),
        forall|p: HeaderData|
            #[trigger] header_read(p, header_bytes(h, 0) + rest) ==> {
                &&& fixed_fields_read(p, header_bytes(h, 0) + rest)
                &&& forall|i: int|
                    0 <= i < 53 ==> #[trigger] opt_value(p, i) == if i < write_stop(h, 0, 0) {
                        opt_value(h, i)
                    } else {
                        0
                    }
            },
        (forall|i: int| write_stop(h, 0, 0) <= i < 53 ==> #[trigger] opt_value(h, i) == 0) ==> header_read(
            h,
            header_bytes(h, 0) + rest,
        ),
{
    let j = write_stop(h, 0, 0);
    let f = fixed_bytes(h);
    let body = f + opt_bytes_upto(h, j);
    let s = header_bytes(h, 0) + rest;
    lemma_bcd_four_bytes(h.version);
    lemma_write_stop_range(h, 0);
    lemma_opt_bytes_len(h, j);
    assert(f.len() == 0x40);
    assert(s.len() >= body.len());
    assert forall|k: int| 0 <= k < body.len() implies s[k] == body[k] by {}
    lemma_write_stop_range(h, 0);
    // the first 64 bytes
    assert(fixed_group0(h).len() == 0x10);
    assert(s.subrange(0, 0x10) =~= fixed_group0(h));
    assert(s.subrange(0x10, 0x20) =~= fixed_group1(h));
    assert(s.subrange(0x20, 0x30) =~= fixed_group2(h));
    assert(s.subrange(0x30, 0x40) =~= fixed_group3(h));
    assert(s.subrange(0x08, 0x0C) =~= bcd_encoding(h.version as nat));
    crate::utils::lemma_bcd_round_trip(h.version);
    lemma_fixed_read(h, s);
    lemma_opt_read_written(h, s);
    lemma_stops_agree(h, s, 0);
    assert(vgm_start(s) == data_pos(h));
    assert(s.len() >= opt_offset(j));
    if j >= 41 {
        lemma_opt_offset_mono(41, j);
        assert(opt_read(s, 40) == opt_value(h, 40));
        reveal(opt_values);
        assert(seq_le32(s, 0xBC) == h.extra_header_offset);
    }
}

proof fn lemma_write_stop_range(h: HeaderData, i: int)
    requires
        0 <= i <= 53,
    ensures
        i <= write_stop(h, 0, i) <= 53,
        write_stop(h, 0, i) < 53 ==> write_stops_at(h, 0, write_stop(h, 0, i)),
        forall|k: int| i <= k < write_stop(h, 0, i) ==> !write_stops_at(h, 0, k),
    decreases 53 - i,
{
    if i < 53 {
        lemma_write_stop_range(h, i + 1);
    }
}


/// The first 64 bytes of a written header read back as its fixed fields.
#[verifier::spinoff_prover]
proof fn lemma_fixed_read(h: HeaderData, s: Seq<u8>)
    requires
        bcd_encoding(h.version as nat).len() == 4,
        s.len() >= 0x40,
        s.subrange(0, 0x10) == fixed_group0(h),
        s.subrange(0x10, 0x20) == fixed_group1(h),
        s.subrange(0x20, 0x30) == fixed_group2(h),
        s.subrange(0x30, 0x40) == fixed_group3(h),
        bcd_value(s.subrange(0x08, 0x0C)) == h.version,
    ensures
        fixed_fields_read(h, s),
        magic_ok(s),
{
    let g0 = s.subrange(0, 0x10);
    let g1 = s.subrange(0x10, 0x20);
    let g2 = s.subrange(0x20, 0x30);
    let g3 = s.subrange(0x30, 0x40);
    assert(s[0] == g0[0] && s[1] == g0[1] && s[2] == g0[2] && s[3] == g0[3]);
    lemma_u32_bytes(h.end_of_file_offset, g0, 4);
    lemma_u32_bytes(h.sn76489_clock, g0, 0x0C);
    lemma_u32_bytes(h.ym2413_clock, g1, 0);
    lemma_u32_bytes(h.gd3_offset, g1, 4);
    lemma_u32_bytes(h.total_nb_samples, g1, 8);
    lemma_u32_bytes(h.loop_offset, g1, 0x0C);
    lemma_u32_bytes(h.loop_nb_samples, g2, 0);
    lemma_u32_bytes(h.rate, g2, 4);
    lemma_u16_bytes(h.sn76489_feedback, g2, 8);
    lemma_u32_bytes(h.ym2612_clock, g2, 0x0C);
    lemma_u32_bytes(h.ym2151_clock, g3, 0);
    lemma_u32_bytes(h.vgm_data_offset, g3, 4);
    lemma_u32_bytes(h.sega_pcm_clock, g3, 8);
    lemma_u32_bytes(h.spcm_interface, g3, 0x0C);
    assert(s[0x2A] == g2[0x0A] && s[0x2B] == g2[0x0B]);
}

/// Where the written fields agree with the bytes, reading stops where writing did.
proof fn lemma_stops_agree(h: HeaderData, s: Seq<u8>, i: int)
    requires
        0 <= i <= write_stop(h, 0, 0) <= 53,
        fixed_bytes(h).len() == 0x40,
        vgm_start(s) == data_pos(h),
        write_stop(h, 0, 0) < 53 ==> opt_offset(write_stop(h, 0, 0)) == data_pos(h),
        forall|k: int| 0 <= k < write_stop(h, 0, 0) ==> #[trigger] opt_read(s, k) == opt_value(h, k),
        forall|k: int| 0 <= k < write_stop(h, 0, 0) ==> !write_stops_at(h, 0, k),
    ensures
        header_stop(s, i) == write_stop(h, 0, 0),
    decreases 53 - i,
{
    let j = write_stop(h, 0, 0);
    if i < j {
        if i >= 41 {
            assert(opt_read(s, 40) == opt_value(h, 40));
            reveal(opt_values);
            assert(seq_le32(s, 0xBC) == h.extra_header_offset);
        }
        assert(!write_stops_at(h, 0, i));
        assert(!stops_at(s, i));
        lemma_stops_agree(h, s, i + 1);
    } else if j < 53 {
        assert(stops_at(s, i));
    }
}

/// How a count byte at `at` of `v` and that many entries of `width` bytes
/// are read, with the count refused above `limit`.
fn section_probe(v: &Vec<u8>, at: u64, width: u64, limit: Option<u8>) -> (o: Probe)
    requires
        width <= 5,
        at <= 0x2000,
    ensures
        probe_is(o, section_step(v@, at as int, width as int, limit)),
        o matches Probe::Done(l) ==> l <= at + 1 + 5 * 255,
{
    let n = v.len() as u64;
    if n < at + 1 {
        return Probe::Stuck;
    }
    let count = v[at as usize];
    match limit {
        Some(l) => {
            if count > l {
                return Probe::Refused;
            }
        },
        None => {},
    }
    assert(width * (count as u64) <= 5 * 255) by (nonlinear_arith)
        requires
            width <= 5,
            count <= 255,
    ;
    let end = at + 1 + width * (count as u64);
    if n < end {
        Probe::Stuck
    } else {
        Probe::Done(end as usize)
    }
}

/// How one pass over an extra header at `p` of `v`, from position `cur`, goes.
fn ex_pass_probe(v: &Vec<u8>, p: u64, cur: u64, config: &Option<ParserConfig>) -> (o: Probe)
    requires
        p <= 0xE4,
        p + 12 <= v.len(),
        cur <= 0x1000,
    ensures
        probe_is(o, ex_pass(v@, p as int, cur as int, *config)),
        o matches Probe::Done(l) ==> l <= cur + 2 * (1 + 5 * 255),
{
    let clock_offset = vec_le32(v, (p + 4) as usize);
    let vol_offset = vec_le32(v, (p + 8) as usize);
    let clock_lim: Option<u8> = match config {
        Some(c) => Some(c.max_chip_clock_entries),
        None => None,
    };
    let vol_lim: Option<u8> = match config {
        Some(c) => Some(c.max_chip_volume_entries),
        None => None,
    };
    let a = if clock_offset != 0 && p + 4 + clock_offset as u64 == cur {
        section_probe(v, cur, 5, clock_lim)
    } else {
        Probe::Done(cur as usize)
    };
    match a {
        Probe::Done(len) => {
            if vol_offset != 0 && p + 8 + vol_offset as u64 == cur {
                section_probe(v, len as u64, 4, vol_lim)
            } else {
                a
            }
        },
        _ => a,
    }
}

/// How reading an extra header at `p` of `v` goes.
fn extra_probe(v: &Vec<u8>, p: u64, config: &Option<ParserConfig>) -> (o: Probe)
    requires
        p <= 0xE4,
    ensures
        probe_is(o, extra_step(v@, p as int, *config)),
{
    if (v.len() as u64) < p + 12 {
        return Probe::Stuck;
    }
    match ex_pass_probe(v, p, p + 12, config) {
        Probe::Done(len) => ex_pass_probe(v, p, len as u64, config),
        other => other,
    }
}

/// How reading a header from `v` goes.
#[verifier::rlimit(40)]
pub(crate) fn header_probe(v: &Vec<u8>, config: &Option<ParserConfig>) -> (o: Probe)
    ensures
        probe_is(o, header_step(v@, *config)),
{
    let ghost s = v@;
    let n = v.len();
    if n < 64 {
        return match config {
            None => Probe::Refused,
            Some(_) => Probe::Stuck,
        };
    }
    if !(v[0] == 0x56 && v[1] == 0x67 && v[2] == 0x6d && v[3] == 0x20) {
        return Probe::Refused;
    }
    let start: u64 = vec_le32(v, 0x34) as u64 + 0x34;
    if start > 0xFFFF_FFFF {
        return Probe::Refused;
    }
    let mut i: usize = 0;
    while i < 41
        invariant
            i <= 41,
            start == vgm_start(s),
            s == v@,
            forall|j: int| 0 <= j < i ==> !stops_at(s, j),
        ensures
            i <= 41,
            i < 41 ==> stops_at(s, i as int),
            forall|j: int| 0 <= j < i ==> !stops_at(s, j),
        decreases 41 - i,
    {
        if opt_offset_exec(i) as u64 == start {
            break;
        }
        i = i + 1;
    }
    proof {
        lemma_header_stop_from(s, i as int);
        lemma_header_stop_range(s, i as int);
    }
    if i < 41 {
        let off = opt_offset_exec(i);
        assert(stops_at(s, i as int));
        assert(header_stop(s, i as int) == i);
        if n < off {
            return Probe::Stuck;
        }
        return Probe::Done(off);
    }
    if n < 0xC0 {
        return Probe::Stuck;
    }
    let extra = vec_le32(v, 0xBC);
    if extra != 0 && extra as u64 + 0xBC > 0xFFFF_FFFF {
        return Probe::Refused;
    }
    while i < 53
        invariant
            41 <= i <= 53,
            start == vgm_start(s),
            s == v@,
            s.len() >= 0xC0,
            extra == seq_le32(s, 0xBC),
            forall|j: int| 0 <= j < i ==> !stops_at(s, j),
        ensures
            41 <= i <= 53,
            i < 53 ==> stops_at(s, i as int),
            forall|j: int| 0 <= j < i ==> !stops_at(s, j),
        decreases 53 - i,
    {
        let off = opt_offset_exec(i) as u64;
        if off == start || (extra != 0 && off == extra as u64 + 0xBC) {
            break;
        }
        i = i + 1;
    }
    proof {
        lemma_header_stop_from(s, i as int);
        lemma_header_stop_range(s, i as int);
    }
    let off = opt_offset_exec(i);
    if n < off {
        return Probe::Stuck;
    }
    if i < 53 && off as u64 != start {
        extra_probe(v, off as u64, config)
    } else {
        Probe::Done(off)
    }
}

/// Within a pass over an extra header, limits on the counts only refuse:
/// a pass that the limits let through goes as it does without them.
proof fn lemma_pass_limits_only_refuse(s: Seq<u8>, p: int, cur: int, c: ParserConfig)
    requires
        ex_pass(s, p, cur, Some(c)) is Done,
    ensures
        ex_pass(s, p, cur, None) == ex_pass(s, p, cur, Some(c)),
{
}

/// Limits only refuse: a header of at least 64 bytes that is read to its
/// end within the limits of `c` is read the same way without limits, and
/// so gives the same header (`header_read` does not depend on the limits).
pub proof fn lemma_header_limits_only_refuse(s: Seq<u8>, c: ParserConfig)
    requires
        s.len() >= 64,
        header_step(s, Some(c)) is Done,
    ensures
        header_step(s, None) == header_step(s, Some(c)),
{
    let j = header_stop(s, 0);
    let p = opt_offset(j);
    if j >= 41 && s.len() >= 0xC0 && s.len() >= p && j < 53 && p != vgm_start(s) && s.len() >= p + 12 {
        lemma_pass_limits_only_refuse(s, p, p + 12, c);
        let first = ex_pass(s, p, p + 12, Some(c));
        if first is Done {
            lemma_pass_limits_only_refuse(s, p, step_len(first) as int, c);
        }
    }
}

} // verus!

//! VGM commands: their types, how they are read from a byte stream and
//! written back, and how compressed data blocks are expanded.

use crate::buffer::{
    buf_get_u16_le, buf_get_u32_le, buf_get_u8, buf_len, bytes_mut_view, bytes_view, le16, le32,
    seq_le16, seq_le32,
};
use crate::errors::{VgmError, VgmResult};
use crate::parser_config::{
    can_track_command, can_track_data_block, default_limits, fresh_tracker, is_size_error, track_command_accepts,
    track_command_error, tracker_with_command, track_data_block_accepts, track_data_block_error,
    tracker_with_block, ParserConfig, ResourceTracker,
};
use crate::text::{hex_byte_string, hex_byte_text, joined};
use bytes::{Bytes, BytesMut};
use vstd::prelude::*;
use vstd::string::StringExecFns;

verus! {

/// Largest data block that `Commands::from_bytes` accepts (16 MiB).
pub const MAX_DATA_BLOCK_SIZE: u32 = 16777216;

/// Compression of a compressed data block.
#[derive(Debug, Clone, Copy, PartialEq, Eq, Structural, Hash)]
pub enum CompressionType {
    BitPacking { bits_decompressed: u8, bits_compressed: u8, sub_type: u8, add_value: u16 },
    DPCM { bits_decompressed: u8, bits_compressed: u8, start_value: u16 },
}

/// The content of a data block, by block type.
#[derive(Debug, Clone, PartialEq, Eq, Hash)]
pub enum DataBlockContent {
    /// Uncompressed streaming data (block types 0x00-0x3F).
    UncompressedStream { chip_type: StreamChipType, data: Vec<u8> },
    /// Compressed streaming data (0x40-0x7E).
    CompressedStream {
        chip_type: StreamChipType,
        compression: CompressionType,
        uncompressed_size: u32,
        data: Vec<u8>,
    },
    /// Decompression table (0x7F).
    DecompressionTable {
        compression_type: u8,
        sub_type: u8,
        bits_decompressed: u8,
        bits_compressed: u8,
        value_count: u16,
        table_data: Vec<u8>,
    },
    /// ROM/RAM dumps (0x80-0xBF).
    ROMDump { chip_type: ROMDumpChipType, total_size: u32, start_address: u32, data: Vec<u8> },
    /// RAM writes of at most 64 KiB (0xC0-0xDF).
    RAMWriteSmall { chip_type: RAMWriteChipType, start_address: u16, data: Vec<u8> },
    /// RAM writes of more than 64 KiB (0xE0-0xFF).
    RAMWriteLarge { chip_type: RAMWriteChipType, start_address: u32, data: Vec<u8> },
    /// Unknown or reserved block type.
    Unknown { data: Vec<u8> },
}

/// Chip of a streaming data block.
#[derive(Debug, Clone, Copy, PartialEq, Eq, Structural, Hash)]
pub enum StreamChipType {
    YM2612,
    RF5C68,
    RF5C164,
    PWM,
    OKIM6258,
    HuC6280,
    SCSP,
    NESAPU,
    Mikey,
    Reserved(u8),
}

/// Chip of a ROM/RAM dump block.
#[derive(Debug, Clone, Copy, PartialEq, Eq, Structural, Hash)]
#[allow(non_camel_case_types)]
pub enum ROMDumpChipType {
    SegaPCM,
    YM2608DeltaT,
    YM2610ADPCM,
    YM2610DeltaT,
    YMF278B,
    YMF271,
    YMZ280B,
    YMF278BRAM,
    Y8950DeltaT,
    MultiPCM,
    UPD7759,
    OKIM6295,
    K054539,
    C140,
    K053260,
    QSound,
    ES5505_ES5506,
    X1010,
    C352,
    GA20,
    Reserved(u8),
}

/// Chip of a RAM write block.
#[derive(Debug, Clone, Copy, PartialEq, Eq, Structural, Hash)]
pub enum RAMWriteChipType {
    RF5C68,
    RF5C164,
    NESAPU,
    SCSP,
    ES5503,
    Reserved(u8),
}

/// One VGM command.
#[derive(Debug, PartialEq, Eq, Clone, Hash)]
#[allow(non_camel_case_types)]
pub enum Commands {
    AY8910StereoMask { value: u8 },
    GameGearPSGStereo { value: u8, chip_index: u8 },
    PSGWrite { value: u8, chip_index: u8 },
    YM2413Write { register: u8, value: u8, chip_index: u8 },
    YM2612Port0Write { register: u8, value: u8, chip_index: u8 },
    YM2612Port1Write { register: u8, value: u8, chip_index: u8 },
    YM2151Write { register: u8, value: u8, chip_index: u8 },
    YM2203Write { register: u8, value: u8, chip_index: u8 },
    YM2608Port0Write { register: u8, value: u8, chip_index: u8 },
    YM2608Port1Write { register: u8, value: u8, chip_index: u8 },
    YM2610Port0Write { register: u8, value: u8, chip_index: u8 },
    YM2610Port1Write { register: u8, value: u8, chip_index: u8 },
    YM3812Write { register: u8, value: u8, chip_index: u8 },
    YM3526Write { register: u8, value: u8, chip_index: u8 },
    Y8950Write { register: u8, value: u8, chip_index: u8 },
    YMZ280BWrite { register: u8, value: u8, chip_index: u8 },
    YMF262Port0Write { register: u8, value: u8, chip_index: u8 },
    YMF262Port1Write { register: u8, value: u8, chip_index: u8 },
    WaitNSamples { n: u16 },
    Wait735Samples,
    Wait882Samples,
    EndOfSoundData,
    DataBlock { block_type: u8, data: DataBlockContent },
    /// PCM RAM write; the offsets and the size are 24-bit values.
    PCMRAMWrite { chip_type: u8, read_offset: u32, write_offset: u32, size: u32, data: Vec<u8> },
    WaitNSamplesPlus1 { n: u8 },
    YM2612Port0Address2AWriteWait { n: u8 },
    DACStreamSetupControl { stream_id: u8, chip_type: u8, port: u8, command: u8, chip_index: u8 },
    DACStreamSetData { stream_id: u8, data_bank_id: u8, step_size: u8, step_base: u8 },
    DACStreamSetFrequency { stream_id: u8, frequency: u32 },
    DACStreamStart { stream_id: u8, data_start_offset: u32, length_mode: u8, data_length: u32 },
    DACStreamStop { stream_id: u8 },
    DACStreamStartFast { stream_id: u8, block_id: u16, flags: u8 },
    AY8910Write { register: u8, value: u8, chip_index: u8 },
    RF5C68Write { register: u8, value: u8 },
    RF5C164Write { register: u8, value: u8 },
    PWMWrite { register: u8, value: u16 },
    GameBoyDMGWrite { register: u8, value: u8, chip_index: u8 },
    NESAPUWrite { register: u8, value: u8, chip_index: u8 },
    MultiPCMWrite { register: u8, value: u8, chip_index: u8 },
    uPD7759Write { register: u8, value: u8, chip_index: u8 },
    OKIM6258Write { register: u8, value: u8, chip_index: u8 },
    OKIM6295Write { register: u8, value: u8, chip_index: u8 },
    HuC6280Write { register: u8, value: u8, chip_index: u8 },
    K053260Write { register: u8, value: u8, chip_index: u8 },
    PokeyWrite { register: u8, value: u8, chip_index: u8 },
    WonderSwanWrite { register: u8, value: u8, chip_index: u8 },
    SAA1099Write { register: u8, value: u8, chip_index: u8 },
    ES5506Write { register: u8, value: u8, chip_index: u8 },
    GA20Write { register: u8, value: u8, chip_index: u8 },
    SegaPCMWrite { offset: u16, value: u8 },
    MultiPCMSetBank { channel: u8, offset: u16 },
    QSoundWrite { register: u8, value: u16 },
    SCSPWrite { offset: u16, value: u8 },
    WonderSwanWrite16 { offset: u16, value: u8 },
    VSUWrite { offset: u16, value: u8 },
    X1010Write { offset: u16, value: u8 },
    YMF278BWrite { port: u8, register: u8, value: u8 },
    YMF271Write { port: u8, register: u8, value: u8 },
    SCC1Write { port: u8, register: u8, value: u8 },
    K054539Write { register: u16, value: u8 },
    C140Write { register: u16, value: u8 },
    ES5503Write { register: u16, value: u8 },
    ES5506Write16 { register: u8, value: u16 },
    SeekPCM { offset: u32 },
    C352Write { register: u16, value: u16 },
    RF5C68WriteOffset { offset: u16, value: u8 },
    RF5C164WriteOffset { offset: u16, value: u8 },
}

/// The low six bits of a block type: the type itself below 0x40, less 0x40
/// from there to 0x7F.
proof fn lemma_low_six_bits(b: u8)
    by (bit_vector)
    ensures
        b < 0x40 ==> b & 0x3F == b,
        0x40 <= b < 0x80 ==> (b & 0x3F) as int == b as int - 0x40,
{
}

/// The stream chip that a block type (with or without its compression bit) names.
pub open spec fn stream_chip_type(block_type: u8) -> StreamChipType {
    let t = block_type & 0x3F;
    if t == 0 {
        StreamChipType::YM2612
    } else if t == 1 {
        StreamChipType::RF5C68
    } else if t == 2 {
        StreamChipType::RF5C164
    } else if t == 3 {
        StreamChipType::PWM
    } else if t == 4 {
        StreamChipType::OKIM6258
    } else if t == 5 {
        StreamChipType::HuC6280
    } else if t == 6 {
        StreamChipType::SCSP
    } else if t == 7 {
        StreamChipType::NESAPU
    } else if t == 8 {
        StreamChipType::Mikey
    } else {
        StreamChipType::Reserved(t)
    }
}

/// The chip that a ROM dump block type names.
pub open spec fn rom_dump_chip_type(block_type: u8) -> ROMDumpChipType {
    match block_type {
        0x80 => ROMDumpChipType::SegaPCM,
        0x81 => ROMDumpChipType::YM2608DeltaT,
        0x82 => ROMDumpChipType::YM2610ADPCM,
        0x83 => ROMDumpChipType::YM2610DeltaT,
        0x84 => ROMDumpChipType::YMF278B,
        0x85 => ROMDumpChipType::YMF271,
        0x86 => ROMDumpChipType::YMZ280B,
        0x87 => ROMDumpChipType::YMF278BRAM,
        0x88 => ROMDumpChipType::Y8950DeltaT,
        0x89 => ROMDumpChipType::MultiPCM,
        0x8A => ROMDumpChipType::UPD7759,
        0x8B => ROMDumpChipType::OKIM6295,
        0x8C => ROMDumpChipType::K054539,
        0x8D => ROMDumpChipType::C140,
        0x8E => ROMDumpChipType::K053260,
        0x8F => ROMDumpChipType::QSound,
        0x90 => ROMDumpChipType::ES5505_ES5506,
        0x91 => ROMDumpChipType::X1010,
        0x92 => ROMDumpChipType::C352,
        0x93 => ROMDumpChipType::GA20,
        other => ROMDumpChipType::Reserved(other),
    }
}

/// The chip that a RAM write block type names.
pub open spec fn ram_write_chip_type(block_type: u8) -> RAMWriteChipType {
    match block_type {
        0xC0 => RAMWriteChipType::RF5C68,
        0xC1 => RAMWriteChipType::RF5C164,
        0xC2 => RAMWriteChipType::NESAPU,
        0xE0 => RAMWriteChipType::SCSP,
        0xE1 => RAMWriteChipType::ES5503,
        other => RAMWriteChipType::Reserved(other),
    }
}

impl StreamChipType {
    /// The chip that a streaming block type names; the compression bit is ignored.
    pub fn from_block_type(block_type: u8) -> (c: Self)
        ensures
            c == stream_chip_type(block_type),
            (block_type == 0x00 || block_type == 0x40) ==> c == StreamChipType::YM2612,
            (block_type == 0x01 || block_type == 0x41) ==> c == StreamChipType::RF5C68,
            (block_type == 0x02 || block_type == 0x42) ==> c == StreamChipType::RF5C164,
            (block_type == 0x03 || block_type == 0x43) ==> c == StreamChipType::PWM,
            (block_type == 0x04 || block_type == 0x44) ==> c == StreamChipType::OKIM6258,
            (block_type == 0x05 || block_type == 0x45) ==> c == StreamChipType::HuC6280,
            (block_type == 0x06 || block_type == 0x46) ==> c == StreamChipType::SCSP,
            (block_type == 0x07 || block_type == 0x47) ==> c == StreamChipType::NESAPU,
            (block_type == 0x08 || block_type == 0x48) ==> c == StreamChipType::Mikey,
            0x09 <= block_type <= 0x3F ==> c == StreamChipType::Reserved(block_type),
            0x49 <= block_type <= 0x7E ==> c == StreamChipType::Reserved((block_type - 0x40) as u8),
    {
        proof {
            lemma_low_six_bits(block_type);
        }
        match block_type & 0x3F {
            0x00 => StreamChipType::YM2612,
            0x01 => StreamChipType::RF5C68,
            0x02 => StreamChipType::RF5C164,
            0x03 => StreamChipType::PWM,
            0x04 => StreamChipType::OKIM6258,
            0x05 => StreamChipType::HuC6280,
            0x06 => StreamChipType::SCSP,
            0x07 => StreamChipType::NESAPU,
            0x08 => StreamChipType::Mikey,
            other => StreamChipType::Reserved(other),
        }
    }
}

impl ROMDumpChipType {
    /// The chip that a ROM dump block type names, as the VGM format assigns
    /// them: 0x80 Sega PCM, 0x81 YM2608 DELTA-T, 0x82 YM2610 ADPCM, 0x83
    /// YM2610 DELTA-T, and so on to 0x93 Irem GA20; other types are reserved.
    pub fn from_block_type(block_type: u8) -> (c: Self)
        ensures
            c == rom_dump_chip_type(block_type),
            block_type == 0x80 ==> c == ROMDumpChipType::SegaPCM,
            block_type == 0x81 ==> c == ROMDumpChipType::YM2608DeltaT,
            block_type == 0x82 ==> c == ROMDumpChipType::YM2610ADPCM,
            block_type == 0x83 ==> c == ROMDumpChipType::YM2610DeltaT,
            block_type == 0x84 ==> c == ROMDumpChipType::YMF278B,
            block_type == 0x85 ==> c == ROMDumpChipType::YMF271,
            block_type == 0x86 ==> c == ROMDumpChipType::YMZ280B,
            block_type == 0x87 ==> c == ROMDumpChipType::YMF278BRAM,
            block_type == 0x88 ==> c == ROMDumpChipType::Y8950DeltaT,
            block_type == 0x89 ==> c == ROMDumpChipType::MultiPCM,
            block_type == 0x8A ==> c == ROMDumpChipType::UPD7759,
            block_type == 0x8B ==> c == ROMDumpChipType::OKIM6295,
            block_type == 0x8C ==> c == ROMDumpChipType::K054539,
            block_type == 0x8D ==> c == ROMDumpChipType::C140,
            block_type == 0x8E ==> c == ROMDumpChipType::K053260,
            block_type == 0x8F ==> c == ROMDumpChipType::QSound,
            block_type == 0x90 ==> c == ROMDumpChipType::ES5505_ES5506,
            block_type == 0x91 ==> c == ROMDumpChipType::X1010,
            block_type == 0x92 ==> c == ROMDumpChipType::C352,
            block_type == 0x93 ==> c == ROMDumpChipType::GA20,
            (block_type < 0x80 || block_type > 0x93) ==> c == ROMDumpChipType::Reserved(block_type),
    {
        match block_type {
            0x80 => ROMDumpChipType::SegaPCM,
            0x81 => ROMDumpChipType::YM2608DeltaT,
            0x82 => ROMDumpChipType::YM2610ADPCM,
            0x83 => ROMDumpChipType::YM2610DeltaT,
            0x84 => ROMDumpChipType::YMF278B,
            0x85 => ROMDumpChipType::YMF271,
            0x86 => ROMDumpChipType::YMZ280B,
            0x87 => ROMDumpChipType::YMF278BRAM,
            0x88 => ROMDumpChipType::Y8950DeltaT,
            0x89 => ROMDumpChipType::MultiPCM,
            0x8A => ROMDumpChipType::UPD7759,
            0x8B => ROMDumpChipType::OKIM6295,
            0x8C => ROMDumpChipType::K054539,
            0x8D => ROMDumpChipType::C140,
            0x8E => ROMDumpChipType::K053260,
            0x8F => ROMDumpChipType::QSound,
            0x90 => ROMDumpChipType::ES5505_ES5506,
            0x91 => ROMDumpChipType::X1010,
            0x92 => ROMDumpChipType::C352,
            0x93 => ROMDumpChipType::GA20,
            other => ROMDumpChipType::Reserved(other),
        }
    }
}

impl RAMWriteChipType {
    /// The chip that a RAM write block type names, as the VGM format assigns
    /// them: 0xC0 RF5C68, 0xC1 RF5C164, 0xC2 NES APU, 0xE0 SCSP, 0xE1
    /// ES5503; other types are reserved.
    pub fn from_block_type(block_type: u8) -> (c: Self)
        ensures
            c == ram_write_chip_type(block_type),
            block_type == 0xC0 ==> c == RAMWriteChipType::RF5C68,
            block_type == 0xC1 ==> c == RAMWriteChipType::RF5C164,
            block_type == 0xC2 ==> c == RAMWriteChipType::NESAPU,
            block_type == 0xE0 ==> c == RAMWriteChipType::SCSP,
            block_type == 0xE1 ==> c == RAMWriteChipType::ES5503,
            !(0xC0 <= block_type <= 0xC2 || 0xE0 <= block_type <= 0xE1) ==> c == RAMWriteChipType::Reserved(block_type),
    {
        match block_type {
            0xC0 => RAMWriteChipType::RF5C68,
            0xC1 => RAMWriteChipType::RF5C164,
            0xC2 => RAMWriteChipType::NESAPU,
            0xE0 => RAMWriteChipType::SCSP,
            0xE1 => RAMWriteChipType::ES5503,
            other => RAMWriteChipType::Reserved(other),
        }
    }
}

/// The number of operand bytes that follow the opcode of a fixed-size
/// command, or -1 where the opcode starts no fixed-size command. `legacy`
/// selects the opcode table of `from_bytes` and `from_bytes_safe`; otherwise
/// that of `from_bytes_with_config`.
pub open spec fn fixed_operand_count(op: u8, legacy: bool) -> int {
    match op {
        0x30 => 1,
        0x31 => 1,
        0x3F => 1,
        0x4F => 1,
        0x50 => 1,
        0x51 => 2,
        0x52 => 2,
        0x53 => 2,
        0x54 => 2,
        0x55 => 2,
        0x56 => 2,
        0x57 => 2,
        0x58 => 2,
        0x59 => 2,
        0x5A => 2,
        0x5B => 2,
        0x5C => 2,
        0x5D => 2,
        0x5E => 2,
        0x5F => 2,
        0x61 => 2,
        0x62 => 0,
        0x63 => 0,
        0x66 => 0,
        0x70 => 0,
        0x71 => 0,
        0x72 => 0,
        0x73 => 0,
        0x74 => 0,
        0x75 => 0,
        0x76 => 0,
        0x77 => 0,
        0x78 => 0,
        0x79 => 0,
        0x7A => 0,
        0x7B => 0,
        0x7C => 0,
        0x7D => 0,
        0x7E => 0,
        0x7F => 0,
        0x80 => 0,
        0x81 => 0,
        0x82 => 0,
        0x83 => 0,
        0x84 => 0,
        0x85 => 0,
        0x86 => 0,
        0x87 => 0,
        0x88 => 0,
        0x89 => 0,
        0x8A => 0,
        0x8B => 0,
        0x8C => 0,
        0x8D => 0,
        0x8E => 0,
        0x8F => 0,
        0x90 => 4,
        0x91 => 4,
        0x92 => 5,
        0x93 => 10,
        0x94 => 1,
        0x95 => 4,
        0xA0 => 2,
        0xA1 => 2,
        0xA2 => 2,
        0xA3 => 2,
        0xA4 => 2,
        0xA5 => 2,
        0xA6 => 2,
        0xA7 => 2,
        0xA8 => 2,
        0xA9 => 2,
        0xAA => 2,
        0xAB => 2,
        0xAC => 2,
        0xAD => 2,
        0xAE => 2,
        0xAF => 2,
        0xB0 => 2,
        0xB1 => 2,
        0xB2 => 3,
        0xB3 => 2,
        0xB4 => 2,
        0xB5 => 2,
        0xB6 => 2,
        0xB7 => 2,
        0xB8 => 2,
        0xB9 => 2,
        0xBA => 2,
        0xBB => 2,
        0xBC => 2,
        0xBD => 2,
        0xBE => 2,
        0xBF => 2,
        0xC0 => 3,
        0xC1 => 3,
        0xC2 => 3,
        0xC3 => if legacy { 3 } else { -1 },
        0xC4 => if legacy { 3 } else { -1 },
        0xC5 => if legacy { 3 } else { -1 },
        0xC6 => if legacy { 3 } else { -1 },
        0xC7 => if legacy { 3 } else { -1 },
        0xC8 => if legacy { 3 } else { -1 },
        0xD0 => 3,
        0xD1 => 3,
        0xD2 => 3,
        0xD3 => 3,
        0xD4 => 3,
        0xD5 => 3,
        0xD6 => 3,
        0xE0 => 4,
        0xE1 => 4,
        _ => -1,
    }
}

/// The command that a fixed-size opcode `op` and its operand bytes `s`
/// stand for (meaningful where `fixed_operand_count(op, legacy) >= 0`).
pub open spec fn decode_fixed(op: u8, s: Seq<u8>, legacy: bool) -> Commands {
    match op {
        0x30 => { let v = s[0]; Commands::PSGWrite { value: v, chip_index: 1 } },
        0x31 => { let v = s[0]; Commands::AY8910StereoMask { value: v } },
        0x3F => { let v = s[0]; Commands::GameGearPSGStereo { value: v, chip_index: 1 } },
        0x4F => { let v = s[0]; Commands::GameGearPSGStereo { value: v, chip_index: 0 } },
        0x50 => { let v = s[0]; Commands::PSGWrite { value: v, chip_index: 0 } },
        0x51 => { let r = s[0]; let v = s[1]; Commands::YM2413Write { register: r, value: v, chip_index: 0 } },
        0x52 => { let r = s[0]; let v = s[1]; Commands::YM2612Port0Write { register: r, value: v, chip_index: 0 } },
        0x53 => { let r = s[0]; let v = s[1]; Commands::YM2612Port1Write { register: r, value: v, chip_index: 0 } },
        0x54 => { let r = s[0]; let v = s[1]; Commands::YM2151Write { register: r, value: v, chip_index: 0 } },
        0x55 => { let r = s[0]; let v = s[1]; Commands::YM2203Write { register: r, value: v, chip_index: 0 } },
        0x56 => { let r = s[0]; let v = s[1]; Commands::YM2608Port0Write { register: r, value: v, chip_index: 0 } },
        0x57 => { let r = s[0]; let v = s[1]; Commands::YM2608Port1Write { register: r, value: v, chip_index: 0 } },
        0x58 => { let r = s[0]; let v = s[1]; Commands::YM2610Port0Write { register: r, value: v, chip_index: 0 } },
        0x59 => { let r = s[0]; let v = s[1]; Commands::YM2610Port1Write { register: r, value: v, chip_index: 0 } },
        0x5A => { let r = s[0]; let v = s[1]; Commands::YM3812Write { register: r, value: v, chip_index: 0 } },
        0x5B => { let r = s[0]; let v = s[1]; Commands::YM3526Write { register: r, value: v, chip_index: 0 } },
        0x5C => { let r = s[0]; let v = s[1]; Commands::Y8950Write { register: r, value: v, chip_index: 0 } },
        0x5D => { let r = s[0]; let v = s[1]; Commands::YMZ280BWrite { register: r, value: v, chip_index: 0 } },
        0x5E => { let r = s[0]; let v = s[1]; Commands::YMF262Port0Write { register: r, value: v, chip_index: 0 } },
        0x5F => { let r = s[0]; let v = s[1]; Commands::YMF262Port1Write { register: r, value: v, chip_index: 0 } },
        0x61 => { let n = seq_le16(s, 0); Commands::WaitNSamples { n: n } },
        0x62 => Commands::Wait735Samples,
        0x63 => Commands::Wait882Samples,
        0x66 => Commands::EndOfSoundData,
        0x70 => Commands::WaitNSamplesPlus1 { n: 0u8 },
        0x71 => Commands::WaitNSamplesPlus1 { n: 1u8 },
        0x72 => Commands::WaitNSamplesPlus1 { n: 2u8 },
        0x73 => Commands::WaitNSamplesPlus1 { n: 3u8 },
        0x74 => Commands::WaitNSamplesPlus1 { n: 4u8 },
        0x75 => Commands::WaitNSamplesPlus1 { n: 5u8 },
        0x76 => Commands::WaitNSamplesPlus1 { n: 6u8 },
        0x77 => Commands::WaitNSamplesPlus1 { n: 7u8 },
        0x78 => Commands::WaitNSamplesPlus1 { n: 8u8 },
        0x79 => Commands::WaitNSamplesPlus1 { n: 9u8 },
        0x7A => Commands::WaitNSamplesPlus1 { n: 10u8 },
        0x7B => Commands::WaitNSamplesPlus1 { n: 11u8 },
        0x7C => Commands::WaitNSamplesPlus1 { n: 12u8 },
        0x7D => Commands::WaitNSamplesPlus1 { n: 13u8 },
        0x7E => Commands::WaitNSamplesPlus1 { n: 14u8 },
        0x7F => Commands::WaitNSamplesPlus1 { n: 15u8 },
        0x80 => Commands::YM2612Port0Address2AWriteWait { n: 0u8 },
        0x81 => Commands::YM2612Port0Address2AWriteWait { n: 1u8 },
        0x82 => Commands::YM2612Port0Address2AWriteWait { n: 2u8 },
        0x83 => Commands::YM2612Port0Address2AWriteWait { n: 3u8 },
        0x84 => Commands::YM2612Port0Address2AWriteWait { n: 4u8 },
        0x85 => Commands::YM2612Port0Address2AWriteWait { n: 5u8 },
        0x86 => Commands::YM2612Port0Address2AWriteWait { n: 6u8 },
        0x87 => Commands::YM2612Port0Address2AWriteWait { n: 7u8 },
        0x88 => Commands::YM2612Port0Address2AWriteWait { n: 8u8 },
        0x89 => Commands::YM2612Port0Address2AWriteWait { n: 9u8 },
        0x8A => Commands::YM2612Port0Address2AWriteWait { n: 10u8 },
        0x8B => Commands::YM2612Port0Address2AWriteWait { n: 11u8 },
        0x8C => Commands::YM2612Port0Address2AWriteWait { n: 12u8 },
        0x8D => Commands::YM2612Port0Address2AWriteWait { n: 13u8 },
        0x8E => Commands::YM2612Port0Address2AWriteWait { n: 14u8 },
        0x8F => Commands::YM2612Port0Address2AWriteWait { n: 15u8 },
        0x90 => { let id = s[0]; let t = s[1]; let p = s[2]; let c = s[3]; Commands::DACStreamSetupControl { stream_id: id, chip_type: t & 0x7F, port: p, command: c, chip_index: if t & 0x80 != 0 { 1u8 } else { 0u8 } } },
        0x91 => { let id = s[0]; let b = s[1]; let l = s[2]; let sb = s[3]; Commands::DACStreamSetData { stream_id: id, data_bank_id: b, step_size: l, step_base: sb } },
        0x92 => { let id = s[0]; let f = seq_le32(s, 1); Commands::DACStreamSetFrequency { stream_id: id, frequency: f } },
        0x93 => { let id = s[0]; let o = seq_le32(s, 1); let m = s[5]; let l = seq_le32(s, 6); Commands::DACStreamStart { stream_id: id, data_start_offset: o, length_mode: m, data_length: l } },
        0x94 => { let id = s[0]; Commands::DACStreamStop { stream_id: id } },
        0x95 => { let id = s[0]; let b = seq_le16(s, 1); let f = s[3]; Commands::DACStreamStartFast { stream_id: id, block_id: b, flags: f } },
        0xA0 => { let r = s[0]; let v = s[1]; Commands::AY8910Write { register: r & 0x7F, value: v, chip_index: if r & 0x80 != 0 { 1u8 } else { 0u8 } } },
        0xA1 => { let r = s[0]; let v = s[1]; Commands::YM2413Write { register: r, value: v, chip_index: 1 } },
        0xA2 => { let r = s[0]; let v = s[1]; Commands::YM2612Port0Write { register: r, value: v, chip_index: 1 } },
        0xA3 => { let r = s[0]; let v = s[1]; Commands::YM2612Port1Write { register: r, value: v, chip_index: 1 } },
        0xA4 => { let r = s[0]; let v = s[1]; Commands::YM2151Write { register: r, value: v, chip_index: 1 } },
        0xA5 => { let r = s[0]; let v = s[1]; Commands::YM2203Write { register: r, value: v, chip_index: 1 } },
        0xA6 => { let r = s[0]; let v = s[1]; Commands::YM2608Port0Write { register: r, value: v, chip_index: 1 } },
        0xA7 => { let r = s[0]; let v = s[1]; Commands::YM2608Port1Write { register: r, value: v, chip_index: 1 } },
        0xA8 => { let r = s[0]; let v = s[1]; Commands::YM2610Port0Write { register: r, value: v, chip_index: 1 } },
        0xA9 => { let r = s[0]; let v = s[1]; Commands::YM2610Port1Write { register: r, value: v, chip_index: 1 } },
        0xAA => { let r = s[0]; let v = s[1]; Commands::YM3812Write { register: r, value: v, chip_index: 1 } },
        0xAB => { let r = s[0]; let v = s[1]; Commands::YM3526Write { register: r, value: v, chip_index: 1 } },
        0xAC => { let r = s[0]; let v = s[1]; Commands::Y8950Write { register: r, value: v, chip_index: 1 } },
        0xAD => { let r = s[0]; let v = s[1]; Commands::YMZ280BWrite { register: r, value: v, chip_index: 1 } },
        0xAE => { let r = s[0]; let v = s[1]; Commands::YMF262Port0Write { register: r, value: v, chip_index: 1 } },
        0xAF => { let r = s[0]; let v = s[1]; Commands::YMF262Port1Write { register: r, value: v, chip_index: 1 } },
        0xB0 => { let r = s[0]; let v = s[1]; Commands::RF5C68Write { register: r, value: v } },
        0xB1 => { let r = s[0]; let v = s[1]; Commands::RF5C164Write { register: r, value: v } },
        0xB2 => { let r = s[0]; let v = seq_le16(s, 1); Commands::PWMWrite { register: r, value: v } },
        0xB3 => { let r = s[0]; let v = s[1]; Commands::GameBoyDMGWrite { register: r & 0x7F, value: v, chip_index: if r & 0x80 != 0 { 1u8 } else { 0u8 } } },
        0xB4 => { let r = s[0]; let v = s[1]; Commands::NESAPUWrite { register: r & 0x7F, value: v, chip_index: if r & 0x80 != 0 { 1u8 } else { 0u8 } } },
        0xB5 => { let r = s[0]; let v = s[1]; Commands::MultiPCMWrite { register: r & 0x7F, value: v, chip_index: if r & 0x80 != 0 { 1u8 } else { 0u8 } } },
        0xB6 => { let r = s[0]; let v = s[1]; Commands::uPD7759Write { register: r & 0x7F, value: v, chip_index: if r & 0x80 != 0 { 1u8 } else { 0u8 } } },
        0xB7 => if legacy { { let r = s[0]; let v = s[1]; Commands::HuC6280Write { register: r & 0x7F, value: v, chip_index: if r & 0x80 != 0 { 1u8 } else { 0u8 } } } } else { { let r = s[0]; let v = s[1]; Commands::OKIM6258Write { register: r & 0x7F, value: v, chip_index: if r & 0x80 != 0 { 1u8 } else { 0u8 } } } },
        0xB8 => { let r = s[0]; let v = s[1]; Commands::OKIM6295Write { register: r & 0x7F, value: v, chip_index: if r & 0x80 != 0 { 1u8 } else { 0u8 } } },
        0xB9 => { let r = s[0]; let v = s[1]; Commands::HuC6280Write { register: r & 0x7F, value: v, chip_index: if r & 0x80 != 0 { 1u8 } else { 0u8 } } },
        0xBA => { let r = s[0]; let v = s[1]; Commands::K053260Write { register: r & 0x7F, value: v, chip_index: if r & 0x80 != 0 { 1u8 } else { 0u8 } } },
        0xBB => { let r = s[0]; let v = s[1]; Commands::PokeyWrite { register: r & 0x7F, value: v, chip_index: if r & 0x80 != 0 { 1u8 } else { 0u8 } } },
        0xBC => { let r = s[0]; let v = s[1]; Commands::WonderSwanWrite { register: r & 0x7F, value: v, chip_index: if r & 0x80 != 0 { 1u8 } else { 0u8 } } },
        0xBD => { let r = s[0]; let v = s[1]; Commands::SAA1099Write { register: r & 0x7F, value: v, chip_index: if r & 0x80 != 0 { 1u8 } else { 0u8 } } },
        0xBE => { let r = s[0]; let v = s[1]; Commands::ES5506Write { register: r & 0x7F, value: v, chip_index: if r & 0x80 != 0 { 1u8 } else { 0u8 } } },
        0xBF => { let r = s[0]; let v = s[1]; Commands::GA20Write { register: r & 0x7F, value: v, chip_index: if r & 0x80 != 0 { 1u8 } else { 0u8 } } },
        0xC0 => { let o = seq_le16(s, 0); let v = s[2]; Commands::SegaPCMWrite { offset: o, value: v } },
        0xC1 => { let o = seq_le16(s, 0); let v = s[2]; Commands::RF5C68WriteOffset { offset: o, value: v } },
        0xC2 => { let o = seq_le16(s, 0); let v = s[2]; Commands::RF5C164WriteOffset { offset: o, value: v } },
        0xC3 => { let c = s[0]; let o = seq_le16(s, 1); Commands::MultiPCMSetBank { channel: c, offset: o } },
        0xC4 => { let v = seq_le16(s, 0); let r = s[2]; Commands::QSoundWrite { register: r, value: v } },
        0xC5 => { let o = seq_le16(s, 0); let v = s[2]; Commands::SCSPWrite { offset: o, value: v } },
        0xC6 => { let o = seq_le16(s, 0); let v = s[2]; Commands::WonderSwanWrite16 { offset: o, value: v } },
        0xC7 => { let o = seq_le16(s, 0); let v = s[2]; Commands::VSUWrite { offset: o, value: v } },
        0xC8 => { let o = seq_le16(s, 0); let v = s[2]; Commands::X1010Write { offset: o, value: v } },
        0xD0 => { let p = s[0]; let r = s[1]; let v = s[2]; Commands::YMF278BWrite { port: p, register: r, value: v } },
        0xD1 => { let p = s[0]; let r = s[1]; let v = s[2]; Commands::YMF271Write { port: p, register: r, value: v } },
        0xD2 => { let p = s[0]; let r = s[1]; let v = s[2]; Commands::SCC1Write { port: p, register: r, value: v } },
        0xD3 => { let r = seq_le16(s, 0); let v = s[2]; Commands::K054539Write { register: r, value: v } },
        0xD4 => { let r = seq_le16(s, 0); let v = s[2]; Commands::C140Write { register: r, value: v } },
        0xD5 => { let r = seq_le16(s, 0); let v = s[2]; Commands::ES5503Write { register: r, value: v } },
        0xD6 => { let r = s[0]; let v = seq_le16(s, 1); Commands::ES5506Write16 { register: r, value: v } },
        0xE0 => { let o = seq_le32(s, 0); Commands::SeekPCM { offset: o } },
        0xE1 => { let r = seq_le16(s, 0); let v = seq_le16(s, 2); Commands::C352Write { register: r, value: v } },
        _ => Commands::EndOfSoundData,
    }
}

fn parse_fixed_low(op: u8, bytes: &mut Bytes, legacy: bool) -> (c: Commands)
    requires
        0x00 <= op < 0x70,
        fixed_operand_count(op, legacy) >= 0,
        bytes_view(*old(bytes)).len() >= fixed_operand_count(op, legacy),
    ensures
        c == decode_fixed(op, bytes_view(*old(bytes)), legacy),
        bytes_view(*final(bytes)) == bytes_view(*old(bytes)).skip(fixed_operand_count(op, legacy)),
{
    match op {
        0x30 => {
            let v = buf_get_u8(bytes);
            Commands::PSGWrite { value: v, chip_index: 1 }
        },
        0x31 => {
            let v = buf_get_u8(bytes);
            Commands::AY8910StereoMask { value: v }
        },
        0x3F => {
            let v = buf_get_u8(bytes);
            Commands::GameGearPSGStereo { value: v, chip_index: 1 }
        },
        0x4F => {
            let v = buf_get_u8(bytes);
            Commands::GameGearPSGStereo { value: v, chip_index: 0 }
        },
        0x50 => {
            let v = buf_get_u8(bytes);
            Commands::PSGWrite { value: v, chip_index: 0 }
        },
        0x51 => {
            let r = buf_get_u8(bytes);
            let v = buf_get_u8(bytes);
            Commands::YM2413Write { register: r, value: v, chip_index: 0 }
        },
        0x52 => {
            let r = buf_get_u8(bytes);
            let v = buf_get_u8(bytes);
            Commands::YM2612Port0Write { register: r, value: v, chip_index: 0 }
        },
        0x53 => {
            let r = buf_get_u8(bytes);
            let v = buf_get_u8(bytes);
            Commands::YM2612Port1Write { register: r, value: v, chip_index: 0 }
        },
        0x54 => {
            let r = buf_get_u8(bytes);
            let v = buf_get_u8(bytes);
            Commands::YM2151Write { register: r, value: v, chip_index: 0 }
        },
        0x55 => {
            let r = buf_get_u8(bytes);
            let v = buf_get_u8(bytes);
            Commands::YM2203Write { register: r, value: v, chip_index: 0 }
        },
        0x56 => {
            let r = buf_get_u8(bytes);
            let v = buf_get_u8(bytes);
            Commands::YM2608Port0Write { register: r, value: v, chip_index: 0 }
        },
        0x57 => {
            let r = buf_get_u8(bytes);
            let v = buf_get_u8(bytes);
            Commands::YM2608Port1Write { register: r, value: v, chip_index: 0 }
        },
        0x58 => {
            let r = buf_get_u8(bytes);
            let v = buf_get_u8(bytes);
            Commands::YM2610Port0Write { register: r, value: v, chip_index: 0 }
        },
        0x59 => {
            let r = buf_get_u8(bytes);
            let v = buf_get_u8(bytes);
            Commands::YM2610Port1Write { register: r, value: v, chip_index: 0 }
        },
        0x5A => {
            let r = buf_get_u8(bytes);
            let v = buf_get_u8(bytes);
            Commands::YM3812Write { register: r, value: v, chip_index: 0 }
        },
        0x5B => {
            let r = buf_get_u8(bytes);
            let v = buf_get_u8(bytes);
            Commands::YM3526Write { register: r, value: v, chip_index: 0 }
        },
        0x5C => {
            let r = buf_get_u8(bytes);
            let v = buf_get_u8(bytes);
            Commands::Y8950Write { register: r, value: v, chip_index: 0 }
        },
        0x5D => {
            let r = buf_get_u8(bytes);
            let v = buf_get_u8(bytes);
            Commands::YMZ280BWrite { register: r, value: v, chip_index: 0 }
        },
        0x5E => {
            let r = buf_get_u8(bytes);
            let v = buf_get_u8(bytes);
            Commands::YMF262Port0Write { register: r, value: v, chip_index: 0 }
        },
        0x5F => {
            let r = buf_get_u8(bytes);
            let v = buf_get_u8(bytes);
            Commands::YMF262Port1Write { register: r, value: v, chip_index: 0 }
        },
        0x61 => {
            let n = buf_get_u16_le(bytes);
            Commands::WaitNSamples { n: n }
        },
        0x62 => {
            Commands::Wait735Samples
        },
        0x63 => {
            Commands::Wait882Samples
        },
        0x66 => {
            Commands::EndOfSoundData
        },
        _ => {
            proof {
                assert(false);
            }
            Commands::EndOfSoundData
        },
    }
}

fn parse_fixed_mid(op: u8, bytes: &mut Bytes, legacy: bool) -> (c: Commands)
    requires
        0x70 <= op < 0xA0,
        fixed_operand_count(op, legacy) >= 0,
        bytes_view(*old(bytes)).len() >= fixed_operand_count(op, legacy),
    ensures
        c == decode_fixed(op, bytes_view(*old(bytes)), legacy),
        bytes_view(*final(bytes)) == bytes_view(*old(bytes)).skip(fixed_operand_count(op, legacy)),
{
    match op {
        0x70 => {
            Commands::WaitNSamplesPlus1 { n: 0u8 }
        },
        0x71 => {
            Commands::WaitNSamplesPlus1 { n: 1u8 }
        },
        0x72 => {
            Commands::WaitNSamplesPlus1 { n: 2u8 }
        },
        0x73 => {
            Commands::WaitNSamplesPlus1 { n: 3u8 }
        },
        0x74 => {
            Commands::WaitNSamplesPlus1 { n: 4u8 }
        },
        0x75 => {
            Commands::WaitNSamplesPlus1 { n: 5u8 }
        },
        0x76 => {
            Commands::WaitNSamplesPlus1 { n: 6u8 }
        },
        0x77 => {
            Commands::WaitNSamplesPlus1 { n: 7u8 }
        },
        0x78 => {
            Commands::WaitNSamplesPlus1 { n: 8u8 }
        },
        0x79 => {
            Commands::WaitNSamplesPlus1 { n: 9u8 }
        },
        0x7A => {
            Commands::WaitNSamplesPlus1 { n: 10u8 }
        },
        0x7B => {
            Commands::WaitNSamplesPlus1 { n: 11u8 }
        },
        0x7C => {
            Commands::WaitNSamplesPlus1 { n: 12u8 }
        },
        0x7D => {
            Commands::WaitNSamplesPlus1 { n: 13u8 }
        },
        0x7E => {
            Commands::WaitNSamplesPlus1 { n: 14u8 }
        },
        0x7F => {
            Commands::WaitNSamplesPlus1 { n: 15u8 }
        },
        0x80 => {
            Commands::YM2612Port0Address2AWriteWait { n: 0u8 }
        },
        0x81 => {
            Commands::YM2612Port0Address2AWriteWait { n: 1u8 }
        },
        0x82 => {
            Commands::YM2612Port0Address2AWriteWait { n: 2u8 }
        },
        0x83 => {
            Commands::YM2612Port0Address2AWriteWait { n: 3u8 }
        },
        0x84 => {
            Commands::YM2612Port0Address2AWriteWait { n: 4u8 }
        },
        0x85 => {
            Commands::YM2612Port0Address2AWriteWait { n: 5u8 }
        },
        0x86 => {
            Commands::YM2612Port0Address2AWriteWait { n: 6u8 }
        },
        0x87 => {
            Commands::YM2612Port0Address2AWriteWait { n: 7u8 }
        },
        0x88 => {
            Commands::YM2612Port0Address2AWriteWait { n: 8u8 }
        },
        0x89 => {
            Commands::YM2612Port0Address2AWriteWait { n: 9u8 }
        },
        0x8A => {
            Commands::YM2612Port0Address2AWriteWait { n: 10u8 }
        },
        0x8B => {
            Commands::YM2612Port0Address2AWriteWait { n: 11u8 }
        },
        0x8C => {
            Commands::YM2612Port0Address2AWriteWait { n: 12u8 }
        },
        0x8D => {
            Commands::YM2612Port0Address2AWriteWait { n: 13u8 }
        },
        0x8E => {
            Commands::YM2612Port0Address2AWriteWait { n: 14u8 }
        },
        0x8F => {
            Commands::YM2612Port0Address2AWriteWait { n: 15u8 }
        },
        0x90 => {
            let id = buf_get_u8(bytes);
            let t = buf_get_u8(bytes);
            let p = buf_get_u8(bytes);
            let c = buf_get_u8(bytes);
            Commands::DACStreamSetupControl { stream_id: id, chip_type: t & 0x7F, port: p, command: c, chip_index: if t & 0x80 != 0 { 1u8 } else { 0u8 } }
        },
        0x91 => {
            let id = buf_get_u8(bytes);
            let b = buf_get_u8(bytes);
            let l = buf_get_u8(bytes);
            let sb = buf_get_u8(bytes);
            Commands::DACStreamSetData { stream_id: id, data_bank_id: b, step_size: l, step_base: sb }
        },
        0x92 => {
            let id = buf_get_u8(bytes);
            let f = buf_get_u32_le(bytes);
            Commands::DACStreamSetFrequency { stream_id: id, frequency: f }
        },
        0x93 => {
            let id = buf_get_u8(bytes);
            let o = buf_get_u32_le(bytes);
            let m = buf_get_u8(bytes);
            let l = buf_get_u32_le(bytes);
            Commands::DACStreamStart { stream_id: id, data_start_offset: o, length_mode: m, data_length: l }
        },
        0x94 => {
            let id = buf_get_u8(bytes);
            Commands::DACStreamStop { stream_id: id }
        },
        0x95 => {
            let id = buf_get_u8(bytes);
            let b = buf_get_u16_le(bytes);
            let f = buf_get_u8(bytes);
            Commands::DACStreamStartFast { stream_id: id, block_id: b, flags: f }
        },
        _ => {
            proof {
                assert(false);
            }
            Commands::EndOfSoundData
        },
    }
}

fn parse_fixed_high(op: u8, bytes: &mut Bytes, legacy: bool) -> (c: Commands)
    requires
        0xA0 <= op < 0xC0,
        fixed_operand_count(op, legacy) >= 0,
        bytes_view(*old(bytes)).len() >= fixed_operand_count(op, legacy),
    ensures
        c == decode_fixed(op, bytes_view(*old(bytes)), legacy),
        bytes_view(*final(bytes)) == bytes_view(*old(bytes)).skip(fixed_operand_count(op, legacy)),
{
    match op {
        0xA0 => {
            let r = buf_get_u8(bytes);
            let v = buf_get_u8(bytes);
            Commands::AY8910Write { register: r & 0x7F, value: v, chip_index: if r & 0x80 != 0 { 1u8 } else { 0u8 } }
        },
        0xA1 => {
            let r = buf_get_u8(bytes);
            let v = buf_get_u8(bytes);
            Commands::YM2413Write { register: r, value: v, chip_index: 1 }
        },
        0xA2 => {
            let r = buf_get_u8(bytes);
            let v = buf_get_u8(bytes);
            Commands::YM2612Port0Write { register: r, value: v, chip_index: 1 }
        },
        0xA3 => {
            let r = buf_get_u8(bytes);
            let v = buf_get_u8(bytes);
            Commands::YM2612Port1Write { register: r, value: v, chip_index: 1 }
        },
        0xA4 => {
            let r = buf_get_u8(bytes);
            let v = buf_get_u8(bytes);
            Commands::YM2151Write { register: r, value: v, chip_index: 1 }
        },
        0xA5 => {
            let r = buf_get_u8(bytes);
            let v = buf_get_u8(bytes);
            Commands::YM2203Write { register: r, value: v, chip_index: 1 }
        },
        0xA6 => {
            let r = buf_get_u8(bytes);
            let v = buf_get_u8(bytes);
            Commands::YM2608Port0Write { register: r, value: v, chip_index: 1 }
        },
        0xA7 => {
            let r = buf_get_u8(bytes);
            let v = buf_get_u8(bytes);
            Commands::YM2608Port1Write { register: r, value: v, chip_index: 1 }
        },
        0xA8 => {
            let r = buf_get_u8(bytes);
            let v = buf_get_u8(bytes);
            Commands::YM2610Port0Write { register: r, value: v, chip_index: 1 }
        },
        0xA9 => {
            let r = buf_get_u8(bytes);
            let v = buf_get_u8(bytes);
            Commands::YM2610Port1Write { register: r, value: v, chip_index: 1 }
        },
        0xAA => {
            let r = buf_get_u8(bytes);
            let v = buf_get_u8(bytes);
            Commands::YM3812Write { register: r, value: v, chip_index: 1 }
        },
        0xAB => {
            let r = buf_get_u8(bytes);
            let v = buf_get_u8(bytes);
            Commands::YM3526Write { register: r, value: v, chip_index: 1 }
        },
        0xAC => {
            let r = buf_get_u8(bytes);
            let v = buf_get_u8(bytes);
            Commands::Y8950Write { register: r, value: v, chip_index: 1 }
        },
        0xAD => {
            let r = buf_get_u8(bytes);
            let v = buf_get_u8(bytes);
            Commands::YMZ280BWrite { register: r, value: v, chip_index: 1 }
        },
        0xAE => {
            let r = buf_get_u8(bytes);
            let v = buf_get_u8(bytes);
            Commands::YMF262Port0Write { register: r, value: v, chip_index: 1 }
        },
        0xAF => {
            let r = buf_get_u8(bytes);
            let v = buf_get_u8(bytes);
            Commands::YMF262Port1Write { register: r, value: v, chip_index: 1 }
        },
        0xB0 => {
            let r = buf_get_u8(bytes);
            let v = buf_get_u8(bytes);
            Commands::RF5C68Write { register: r, value: v }
        },
        0xB1 => {
            let r = buf_get_u8(bytes);
            let v = buf_get_u8(bytes);
            Commands::RF5C164Write { register: r, value: v }
        },
        0xB2 => {
            let r = buf_get_u8(bytes);
            let v = buf_get_u16_le(bytes);
            Commands::PWMWrite { register: r, value: v }
        },
        0xB3 => {
            let r = buf_get_u8(bytes);
            let v = buf_get_u8(bytes);
            Commands::GameBoyDMGWrite { register: r & 0x7F, value: v, chip_index: if r & 0x80 != 0 { 1u8 } else { 0u8 } }
        },
        0xB4 => {
            let r = buf_get_u8(bytes);
            let v = buf_get_u8(bytes);
            Commands::NESAPUWrite { register: r & 0x7F, value: v, chip_index: if r & 0x80 != 0 { 1u8 } else { 0u8 } }
        },
        0xB5 => {
            let r = buf_get_u8(bytes);
            let v = buf_get_u8(bytes);
            Commands::MultiPCMWrite { register: r & 0x7F, value: v, chip_index: if r & 0x80 != 0 { 1u8 } else { 0u8 } }
        },
        0xB6 => {
            let r = buf_get_u8(bytes);
            let v = buf_get_u8(bytes);
            Commands::uPD7759Write { register: r & 0x7F, value: v, chip_index: if r & 0x80 != 0 { 1u8 } else { 0u8 } }
        },
        0xB7 => if legacy {
            let r = buf_get_u8(bytes);
            let v = buf_get_u8(bytes);
            Commands::HuC6280Write { register: r & 0x7F, value: v, chip_index: if r & 0x80 != 0 { 1u8 } else { 0u8 } }
        } else {
            let r = buf_get_u8(bytes);
            let v = buf_get_u8(bytes);
            Commands::OKIM6258Write { register: r & 0x7F, value: v, chip_index: if r & 0x80 != 0 { 1u8 } else { 0u8 } }
        },
        0xB8 => {
            let r = buf_get_u8(bytes);
            let v = buf_get_u8(bytes);
            Commands::OKIM6295Write { register: r & 0x7F, value: v, chip_index: if r & 0x80 != 0 { 1u8 } else { 0u8 } }
        },
        0xB9 => {
            let r = buf_get_u8(bytes);
            let v = buf_get_u8(bytes);
            Commands::HuC6280Write { register: r & 0x7F, value: v, chip_index: if r & 0x80 != 0 { 1u8 } else { 0u8 } }
        },
        0xBA => {
            let r = buf_get_u8(bytes);
            let v = buf_get_u8(bytes);
            Commands::K053260Write { register: r & 0x7F, value: v, chip_index: if r & 0x80 != 0 { 1u8 } else { 0u8 } }
        },
        0xBB => {
            let r = buf_get_u8(bytes);
            let v = buf_get_u8(bytes);
            Commands::PokeyWrite { register: r & 0x7F, value: v, chip_index: if r & 0x80 != 0 { 1u8 } else { 0u8 } }
        },
        0xBC => {
            let r = buf_get_u8(bytes);
            let v = buf_get_u8(bytes);
            Commands::WonderSwanWrite { register: r & 0x7F, value: v, chip_index: if r & 0x80 != 0 { 1u8 } else { 0u8 } }
        },
        0xBD => {
            let r = buf_get_u8(bytes);
            let v = buf_get_u8(bytes);
            Commands::SAA1099Write { register: r & 0x7F, value: v, chip_index: if r & 0x80 != 0 { 1u8 } else { 0u8 } }
        },
        0xBE => {
            let r = buf_get_u8(bytes);
            let v = buf_get_u8(bytes);
            Commands::ES5506Write { register: r & 0x7F, value: v, chip_index: if r & 0x80 != 0 { 1u8 } else { 0u8 } }
        },
        0xBF => {
            let r = buf_get_u8(bytes);
            let v = buf_get_u8(bytes);
            Commands::GA20Write { register: r & 0x7F, value: v, chip_index: if r & 0x80 != 0 { 1u8 } else { 0u8 } }
        },
        _ => {
            proof {
                assert(false);
            }
            Commands::EndOfSoundData
        },
    }
}

fn parse_fixed_top(op: u8, bytes: &mut Bytes, legacy: bool) -> (c: Commands)
    requires
        0xC0 <= op < 0x100,
        fixed_operand_count(op, legacy) >= 0,
        bytes_view(*old(bytes)).len() >= fixed_operand_count(op, legacy),
    ensures
        c == decode_fixed(op, bytes_view(*old(bytes)), legacy),
        bytes_view(*final(bytes)) == bytes_view(*old(bytes)).skip(fixed_operand_count(op, legacy)),
{
    match op {
        0xC0 => {
            let o = buf_get_u16_le(bytes);
            let v = buf_get_u8(bytes);
            Commands::SegaPCMWrite { offset: o, value: v }
        },
        0xC1 => {
            let o = buf_get_u16_le(bytes);
            let v = buf_get_u8(bytes);
            Commands::RF5C68WriteOffset { offset: o, value: v }
        },
        0xC2 => {
            let o = buf_get_u16_le(bytes);
            let v = buf_get_u8(bytes);
            Commands::RF5C164WriteOffset { offset: o, value: v }
        },
        0xC3 => {
            let c = buf_get_u8(bytes);
            let o = buf_get_u16_le(bytes);
            Commands::MultiPCMSetBank { channel: c, offset: o }
        },
        0xC4 => {
            let v = buf_get_u16_le(bytes);
            let r = buf_get_u8(bytes);
            Commands::QSoundWrite { register: r, value: v }
        },
        0xC5 => {
            let o = buf_get_u16_le(bytes);
            let v = buf_get_u8(bytes);
            Commands::SCSPWrite { offset: o, value: v }
        },
        0xC6 => {
            let o = buf_get_u16_le(bytes);
            let v = buf_get_u8(bytes);
            Commands::WonderSwanWrite16 { offset: o, value: v }
        },
        0xC7 => {
            let o = buf_get_u16_le(bytes);
            let v = buf_get_u8(bytes);
            Commands::VSUWrite { offset: o, value: v }
        },
        0xC8 => {
            let o = buf_get_u16_le(bytes);
            let v = buf_get_u8(bytes);
            Commands::X1010Write { offset: o, value: v }
        },
        0xD0 => {
            let p = buf_get_u8(bytes);
            let r = buf_get_u8(bytes);
            let v = buf_get_u8(bytes);
            Commands::YMF278BWrite { port: p, register: r, value: v }
        },
        0xD1 => {
            let p = buf_get_u8(bytes);
            let r = buf_get_u8(bytes);
            let v = buf_get_u8(bytes);
            Commands::YMF271Write { port: p, register: r, value: v }
        },
        0xD2 => {
            let p = buf_get_u8(bytes);
            let r = buf_get_u8(bytes);
            let v = buf_get_u8(bytes);
            Commands::SCC1Write { port: p, register: r, value: v }
        },
        0xD3 => {
            let r = buf_get_u16_le(bytes);
            let v = buf_get_u8(bytes);
            Commands::K054539Write { register: r, value: v }
        },
        0xD4 => {
            let r = buf_get_u16_le(bytes);
            let v = buf_get_u8(bytes);
            Commands::C140Write { register: r, value: v }
        },
        0xD5 => {
            let r = buf_get_u16_le(bytes);
            let v = buf_get_u8(bytes);
            Commands::ES5503Write { register: r, value: v }
        },
        0xD6 => {
            let r = buf_get_u8(bytes);
            let v = buf_get_u16_le(bytes);
            Commands::ES5506Write16 { register: r, value: v }
        },
        0xE0 => {
            let o = buf_get_u32_le(bytes);
            Commands::SeekPCM { offset: o }
        },
        0xE1 => {
            let r = buf_get_u16_le(bytes);
            let v = buf_get_u16_le(bytes);
            Commands::C352Write { register: r, value: v }
        },
        _ => {
            proof {
                assert(false);
            }
            Commands::EndOfSoundData
        },
    }
}

/// Reads the operands of a fixed-size command whose opcode has been read.
fn parse_fixed(op: u8, bytes: &mut Bytes, legacy: bool) -> (c: Commands)
    requires
        fixed_operand_count(op, legacy) >= 0,
        bytes_view(*old(bytes)).len() >= fixed_operand_count(op, legacy),
    ensures
        c == decode_fixed(op, bytes_view(*old(bytes)), legacy),
        bytes_view(*final(bytes)) == bytes_view(*old(bytes)).skip(fixed_operand_count(op, legacy)),
{
    if op < 0x70 {
        parse_fixed_low(op, bytes, legacy)
    } else if op < 0xA0 {
        parse_fixed_mid(op, bytes, legacy)
    } else if op < 0xC0 {
        parse_fixed_high(op, bytes, legacy)
    } else {
        parse_fixed_top(op, bytes, legacy)
    }
}


/// What reading an item from a byte sequence does.
pub enum Step {
    /// The item was read; `len` bytes were consumed.
    Done { len: nat },
    /// The item was refused with an error after `len` bytes were consumed.
    Refused { len: nat },
    /// Reading runs past the end of the buffer, or an arithmetic limit is
    /// exceeded; the functions that read require that this does not happen.
    Stuck,
}

/// The step shifted by `k` bytes read before it.
pub open spec fn after(k: nat, st: Step) -> Step {
    match st {
        Step::Done { len } => Step::Done { len: k + len },
        Step::Refused { len } => Step::Refused { len: k + len },
        Step::Stuck => Step::Stuck,
    }
}

/// The number of bytes that a step consumed (none when it is stuck).
pub open spec fn step_len(st: Step) -> nat {
    match st {
        Step::Done { len } => len,
        Step::Refused { len } => len,
        Step::Stuck => 0,
    }
}

/// The 24-bit little-endian value that starts at index `i` of `s`.
pub open spec fn seq_le24(s: Seq<u8>, i: int) -> u32 {
    ((s[i] as u32) | ((s[i + 1] as u32) << 8u32) | ((s[i + 2] as u32) << 16u32)) as u32
}

/// The number of data bytes of a compressed stream block of `size` bytes:
/// the size less nine, or none.
pub open spec fn compressed_payload_len(size: u32) -> nat {
    if size >= 9 {
        (size - 9) as nat
    } else {
        0
    }
}

/// The number of header bytes that precede the payload of a data block of a
/// ROM dump, RAM write or decompression table type.
pub open spec fn block_header_len(block_type: u8) -> nat {
    if block_type == 0x7F {
        6
    } else if block_type <= 0xBF {
        8
    } else if block_type <= 0xDF {
        2
    } else {
        4
    }
}

/// What reading the content of a data block of type `block_type` and size
/// `size` from `s` does.
pub open spec fn block_step(block_type: u8, size: u32, s: Seq<u8>) -> Step {
    if block_type <= 0x3F {
        if s.len() < size {
            Step::Stuck
        } else {
            Step::Done { len: size as nat }
        }
    } else if block_type <= 0x7E {
        if s.len() < 5 {
            Step::Stuck
        } else if s[0] != 0 && s[0] != 1 {
            Step::Refused { len: 5 }
        } else if s.len() < 10 + compressed_payload_len(size) {
            Step::Stuck
        } else {
            Step::Done { len: 10 + compressed_payload_len(size) }
        }
    } else {
        let h = block_header_len(block_type);
        if s.len() < h || size < h || s.len() < size {
            Step::Stuck
        } else {
            Step::Done { len: size as nat }
        }
    }
}

/// The compression that the header of a compressed stream block describes.
pub open spec fn compression_of(s: Seq<u8>) -> CompressionType {
    if s[0] == 0 {
        CompressionType::BitPacking {
            bits_decompressed: s[5],
            bits_compressed: s[6],
            sub_type: s[7],
            add_value: seq_le16(s, 8),
        }
    } else {
        CompressionType::DPCM {
            bits_decompressed: s[5],
            bits_compressed: s[6],
            start_value: seq_le16(s, 8),
        }
    }
}

/// Whether `content` is what a data block of type `block_type` and size
/// `size`, read from `s`, holds.
pub open spec fn block_content_ok(block_type: u8, size: u32, s: Seq<u8>, content: DataBlockContent) -> bool {
    if block_type <= 0x3F {
        content matches DataBlockContent::UncompressedStream { chip_type, data } && chip_type
            == stream_chip_type(block_type) && data@ == s.take(size as int)
    } else if block_type <= 0x7E {
        content matches DataBlockContent::CompressedStream {
            chip_type,
            compression,
            uncompressed_size,
            data,
        } && chip_type == stream_chip_type(block_type) && compression == compression_of(s)
            && uncompressed_size == seq_le32(s, 1) && data@ == s.subrange(
            10,
            10 + compressed_payload_len(size) as int,
        )
    } else if block_type == 0x7F {
        content matches DataBlockContent::DecompressionTable {
            compression_type,
            sub_type,
            bits_decompressed,
            bits_compressed,
            value_count,
            table_data,
        } && compression_type == s[0] && sub_type == s[1] && bits_decompressed == s[2]
            && bits_compressed == s[3] && value_count == seq_le16(s, 4) && table_data@
            == s.subrange(6, size as int)
    } else if block_type <= 0xBF {
        content matches DataBlockContent::ROMDump { chip_type, total_size, start_address, data }
            && chip_type == rom_dump_chip_type(block_type) && total_size == seq_le32(s, 0)
            && start_address == seq_le32(s, 4) && data@ == s.subrange(8, size as int)
    } else if block_type <= 0xDF {
        content matches DataBlockContent::RAMWriteSmall { chip_type, start_address, data }
            && chip_type == ram_write_chip_type(block_type) && start_address == seq_le16(s, 0)
            && data@ == s.subrange(2, size as int)
    } else {
        content matches DataBlockContent::RAMWriteLarge { chip_type, start_address, data }
            && chip_type == ram_write_chip_type(block_type) && start_address == seq_le32(s, 0)
            && data@ == s.subrange(4, size as int)
    }
}

/// The error that refuses a compressed stream block with an unknown compression type.
pub open spec fn is_unknown_compression_error(e: VgmError, compression_type: u8) -> bool {
    e matches VgmError::InvalidDataFormat { field, details } && field@ == "compression_type"@
        && details@ == "Unknown compression type: 0x"@ + hex_byte_text(compression_type)
}

/// Reads `n` bytes.
fn read_bytes(bytes: &mut Bytes, n: usize) -> (v: Vec<u8>)
    requires
        bytes_view(*old(bytes)).len() >= n,
    ensures
        v@ == bytes_view(*old(bytes)).take(n as int),
        bytes_view(*final(bytes)) == bytes_view(*old(bytes)).skip(n as int),
{
    let ghost s = bytes_view(*bytes);
    let mut v: Vec<u8> = Vec::with_capacity(n);
    let mut i: usize = 0;
    while i < n
        invariant
            i <= n,
            n <= s.len(),
            v@ == s.take(i as int),
            bytes_view(*bytes) == s.skip(i as int),
        decreases n - i,
    {
        let b = buf_get_u8(bytes);
        v.push(b);
        i += 1;
        assert(v@ == s.take(i as int));
    }
    v
}

impl DataBlockContent {
    /// Reads the content of a data block of type `block_type` and size
    /// `data_size`, whose header has been read.
    pub fn parse_from_bytes(block_type: u8, data_size: u32, bytes: &mut Bytes) -> (r: VgmResult<Self>)
        requires
            !(block_step(block_type, data_size, bytes_view(*old(bytes))) is Stuck),
        ensures
            bytes_view(*final(bytes)) == bytes_view(*old(bytes)).skip(
                step_len(block_step(block_type, data_size, bytes_view(*old(bytes)))) as int,
            ),
            block_step(block_type, data_size, bytes_view(*old(bytes))) is Done ==> r is Ok
                && block_content_ok(block_type, data_size, bytes_view(*old(bytes)), r->Ok_0),
            block_step(block_type, data_size, bytes_view(*old(bytes))) is Refused ==> r is Err
                && is_unknown_compression_error(r->Err_0, bytes_view(*old(bytes))[0]),
    {
        let ghost s = bytes_view(*bytes);
        if block_type <= 0x3F {
            let chip_type = StreamChipType::from_block_type(block_type);
            let data = read_bytes(bytes, data_size as usize);
            let content = DataBlockContent::UncompressedStream { chip_type, data };
            assert(block_content_ok(block_type, data_size, s, content));
            Ok(content)
        } else if block_type <= 0x7E {
            let chip_type = StreamChipType::from_block_type(block_type);
            let compression_type = buf_get_u8(bytes);
            let uncompressed_size = buf_get_u32_le(bytes);
            if compression_type > 0x01 {
                let hex = hex_byte_string(compression_type);
                let details = joined("Unknown compression type: 0x", hex.as_str());
                return Err(
                    VgmError::InvalidDataFormat {
                        field: String::from_str("compression_type"),
                        details,
                    },
                );
            }
            let compression = if compression_type == 0x00 {
                let bits_decompressed = buf_get_u8(bytes);
                let bits_compressed = buf_get_u8(bytes);
                let sub_type = buf_get_u8(bytes);
                let add_value = buf_get_u16_le(bytes);
                CompressionType::BitPacking { bits_decompressed, bits_compressed, sub_type, add_value }
            } else {
                let bits_decompressed = buf_get_u8(bytes);
                let bits_compressed = buf_get_u8(bytes);
                let _reserved = buf_get_u8(bytes);
                let start_value = buf_get_u16_le(bytes);
                CompressionType::DPCM { bits_decompressed, bits_compressed, start_value }
            };
            let remaining_size = data_size.saturating_sub(9);
            let data = read_bytes(bytes, remaining_size as usize);
            proof {
                assert(bytes_view(*bytes) == s.skip(10 + compressed_payload_len(data_size) as int));
                assert(data@ =~= s.subrange(10, 10 + compressed_payload_len(data_size) as int));
            }
            let content = DataBlockContent::CompressedStream { chip_type, compression, uncompressed_size, data };
            assert(block_content_ok(block_type, data_size, s, content));
            Ok(content)
        } else if block_type == 0x7F {
            let compression_type = buf_get_u8(bytes);
            let sub_type = buf_get_u8(bytes);
            let bits_decompressed = buf_get_u8(bytes);
            let bits_compressed = buf_get_u8(bytes);
            let value_count = buf_get_u16_le(bytes);
            let table_data = read_bytes(bytes, (data_size - 6) as usize);
            assert(table_data@ =~= s.subrange(6, data_size as int));
            let content = DataBlockContent::DecompressionTable { compression_type, sub_type, bits_decompressed, bits_compressed, value_count, table_data };
            assert(block_content_ok(block_type, data_size, s, content));
            Ok(content)
        } else if block_type <= 0xBF {
            let chip_type = ROMDumpChipType::from_block_type(block_type);
            let total_size = buf_get_u32_le(bytes);
            let start_address = buf_get_u32_le(bytes);
            let data = read_bytes(bytes, (data_size - 8) as usize);
            assert(data@ =~= s.subrange(8, data_size as int));
            let content = DataBlockContent::ROMDump { chip_type, total_size, start_address, data };
            assert(block_content_ok(block_type, data_size, s, content));
            Ok(content)
        } else if block_type <= 0xDF {
            let chip_type = RAMWriteChipType::from_block_type(block_type);
            let start_address = buf_get_u16_le(bytes);
            let data = read_bytes(bytes, (data_size - 2) as usize);
            assert(data@ =~= s.subrange(2, data_size as int));
            let content = DataBlockContent::RAMWriteSmall { chip_type, start_address, data };
            assert(block_content_ok(block_type, data_size, s, content));
            Ok(content)
        } else {
            let chip_type = RAMWriteChipType::from_block_type(block_type);
            let start_address = buf_get_u32_le(bytes);
            let data = read_bytes(bytes, (data_size - 4) as usize);
            assert(data@ =~= s.subrange(4, data_size as int));
            let content = DataBlockContent::RAMWriteLarge { chip_type, start_address, data };
            assert(block_content_ok(block_type, data_size, s, content));
            Ok(content)
        }
    }
}



/// The size of the PCM RAM write whose command starts `s`: the 24-bit size
/// field, where 0 stands for 0x0100_0000 bytes.
pub open spec fn pcm_size(s: Seq<u8>) -> u32 {
    if seq_le24(s, 9) == 0 {
        0x0100_0000
    } else {
        seq_le24(s, 9)
    }
}

/// The error that refuses a data block or PCM RAM write command whose
/// second byte, `found`, is not 0x66.
pub open spec fn is_compat_error(e: VgmError, opcode: u8, found: u8) -> bool {
    e matches VgmError::InvalidCommandParameters { opcode: o, position, reason } && o == opcode
        && position == 0 && reason@ == "Expected compatibility byte 0x66, found 0x"@
        + hex_byte_text(found)
}

/// The error that refuses to read `needed` bytes when `available` are left.
pub open spec fn is_underflow_error(e: VgmError, needed: int, available: int) -> bool {
    e matches VgmError::BufferUnderflow { offset, needed: n, available: a } && offset == 0 && n
        == needed && a == available
}

/// What reading a data block command (opcode 0x67) from `s` does. `config`
/// is `None` for the fixed limit of `from_bytes`, or the limits of
/// `from_bytes_with_config`, with tracker `t`.
pub open spec fn data_block_step(s: Seq<u8>, config: Option<ParserConfig>, t: ResourceTracker) -> Step {
    if s.len() < 2 {
        Step::Stuck
    } else if s[1] != 0x66 {
        Step::Refused { len: 2 }
    } else if s.len() < 7 {
        Step::Stuck
    } else {
        let size = seq_le32(s, 3);
        let tail = after(7, block_step(s[2], size, s.skip(7)));
        match config {
            None => {
                if size > MAX_DATA_BLOCK_SIZE || s.len() - 7 < size {
                    Step::Refused { len: 7 }
                } else {
                    tail
                }
            },
            Some(c) => {
                if size > c.max_data_block_size {
                    Step::Refused { len: 7 }
                } else if !can_track_data_block(t, c, size) {
                    Step::Stuck
                } else if !track_data_block_accepts(t, c, size) || s.len() - 7 < size {
                    Step::Refused { len: 7 }
                } else {
                    tail
                }
            },
        }
    }
}

/// What reading a PCM RAM write command (opcode 0x68) from `s` does.
pub open spec fn pcm_write_step(s: Seq<u8>, config: Option<ParserConfig>, t: ResourceTracker) -> Step {
    if s.len() < 2 {
        Step::Stuck
    } else if s[1] != 0x66 {
        Step::Refused { len: 2 }
    } else if s.len() < 12 {
        Step::Stuck
    } else {
        let size = pcm_size(s);
        match config {
            None => {
                if s.len() - 12 < size {
                    Step::Stuck
                } else {
                    Step::Done { len: 12 + size as nat }
                }
            },
            Some(c) => {
                if size > c.max_command_memory || s.len() - 12 < size {
                    Step::Refused { len: 12 }
                } else if !can_track_data_block(t, c, size) {
                    Step::Stuck
                } else if !track_data_block_accepts(t, c, size) {
                    Step::Refused { len: 12 }
                } else {
                    Step::Done { len: 12 + size as nat }
                }
            },
        }
    }
}

/// What reading one command from `s` does: `config` is `None` for
/// `from_bytes` and `from_bytes_safe`, and the limits of
/// `from_bytes_with_config` otherwise, whose tracker is `t`.
pub open spec fn command_step(s: Seq<u8>, config: Option<ParserConfig>, t: ResourceTracker) -> Step {
    if s.len() < 1 {
        Step::Stuck
    } else {
        let k = fixed_operand_count(s[0], config is None);
        if k >= 0 {
            if s.len() < 1 + k {
                Step::Stuck
            } else {
                Step::Done { len: (1 + k) as nat }
            }
        } else if s[0] == 0x67 {
            data_block_step(s, config, t)
        } else if s[0] == 0x68 {
            pcm_write_step(s, config, t)
        } else {
            Step::Refused { len: 1 }
        }
    }
}

/// Whether `c` is the command read from `s` (where the step is `Done`).
pub open spec fn command_parsed(s: Seq<u8>, config: Option<ParserConfig>, c: Commands) -> bool {
    let op = s[0];
    if fixed_operand_count(op, config is None) >= 0 {
        c == decode_fixed(op, s.skip(1), config is None)
    } else if op == 0x67 {
        c matches Commands::DataBlock { block_type, data } && block_type == s[2]
            && block_content_ok(s[2], seq_le32(s, 3), s.skip(7), data)
    } else {
        c matches Commands::PCMRAMWrite { chip_type, read_offset, write_offset, size, data }
            && chip_type == s[2] && read_offset == seq_le24(s, 3) && write_offset == seq_le24(s, 6)
            && size == pcm_size(s) && data@ == s.subrange(12, 12 + pcm_size(s))
    }
}

/// Whether `e` is the error with which reading a command from `s` is
/// refused (where the step is `Refused`).
pub open spec fn command_refused(s: Seq<u8>, config: Option<ParserConfig>, t: ResourceTracker, e: VgmError) -> bool {
    let op = s[0];
    if op != 0x67 && op != 0x68 {
        e == (VgmError::UnknownCommand { opcode: op, position: 0 })
    } else if s[1] != 0x66 {
        is_compat_error(e, op, s[1])
    } else if op == 0x67 {
        let size = seq_le32(s, 3);
        let avail = s.len() - 7;
        match config {
            None => {
                if size > MAX_DATA_BLOCK_SIZE {
                    is_size_error(e, "DataBlock"@, size as int, MAX_DATA_BLOCK_SIZE as int)
                } else if avail < size {
                    is_underflow_error(e, size as int, avail)
                } else {
                    is_unknown_compression_error(e, s[7])
                }
            },
            Some(c) => {
                if !track_data_block_accepts(t, c, size) {
                    track_data_block_error(t, c, size, e)
                } else if avail < size {
                    is_underflow_error(e, size as int, avail)
                } else {
                    is_unknown_compression_error(e, s[7])
                }
            },
        }
    } else {
        let size = pcm_size(s);
        let avail = s.len() - 12;
        match config {
            None => false,
            Some(c) => {
                if size > c.max_command_memory {
                    is_size_error(e, "PCM RAM write data"@, size as int, c.max_command_memory as int)
                } else if avail < size {
                    is_underflow_error(e, size as int, avail)
                } else {
                    track_data_block_error(t, c, size, e)
                }
            },
        }
    }
}

/// The tracker after reading a command from `s` with the limits `config`:
/// a data block or PCM RAM write that the tracker accepted is recorded.
pub open spec fn command_tracker(s: Seq<u8>, config: ParserConfig, t: ResourceTracker) -> ResourceTracker {
    if s.len() >= 7 && s[0] == 0x67 && s[1] == 0x66 && track_data_block_accepts(t, config, seq_le32(s, 3)) {
        tracker_with_block(t, seq_le32(s, 3))
    } else if s.len() >= 12 && s[0] == 0x68 && s[1] == 0x66 && pcm_size(s) <= config.max_command_memory
        && s.len() - 12 >= pcm_size(s) && track_data_block_accepts(t, config, pcm_size(s)) {
        tracker_with_block(t, pcm_size(s))
    } else {
        t
    }
}

/// Reads the byte that must follow the opcode of a data block or PCM RAM write.
fn read_compat_byte(opcode: u8, bytes: &mut Bytes) -> (r: VgmResult<()>)
    requires
        bytes_view(*old(bytes)).len() >= 1,
    ensures
        bytes_view(*final(bytes)) == bytes_view(*old(bytes)).skip(1),
        r is Ok <==> bytes_view(*old(bytes))[0] == 0x66,
        r is Err ==> is_compat_error(r->Err_0, opcode, bytes_view(*old(bytes))[0]),
{
    let compatibility_byte = buf_get_u8(bytes);
    if compatibility_byte != 0x66 {
        let hex = hex_byte_string(compatibility_byte);
        return Err(
            VgmError::InvalidCommandParameters {
                opcode,
                position: 0,
                reason: joined("Expected compatibility byte 0x66, found 0x", hex.as_str()),
            },
        );
    }
    Ok(())
}

/// Reads a 24-bit little-endian value.
fn read_u24(bytes: &mut Bytes) -> (v: u32)
    requires
        bytes_view(*old(bytes)).len() >= 3,
    ensures
        v == seq_le24(bytes_view(*old(bytes)), 0),
        bytes_view(*final(bytes)) == bytes_view(*old(bytes)).skip(3),
{
    let b0 = buf_get_u8(bytes);
    let b1 = buf_get_u8(bytes);
    let b2 = buf_get_u8(bytes);
    (b0 as u32) | ((b1 as u32) << 8u32) | ((b2 as u32) << 16u32)
}


/// Whether `op` opens a fixed-size command in the selected opcode table.
fn is_fixed_opcode(op: u8, legacy: bool) -> (b: bool)
    ensures
        b == (fixed_operand_count(op, legacy) >= 0),
{
    op == 0x30 || op == 0x31 || op == 0x3F || op == 0x4F || (0x50 <= op && op <= 0x5F) || op == 0x61
        || op == 0x62 || op == 0x63 || op == 0x66 || (0x70 <= op && op <= 0x95) || (0xA0 <= op && op
        <= 0xC2) || (legacy && 0xC3 <= op && op <= 0xC8) || (0xD0 <= op && op <= 0xD6) || op == 0xE0
        || op == 0xE1
}


/// The rest of a data block command after its size checks: the content,
/// when enough bytes are left for it.
fn read_data_block_content(block_type: u8, data_size: u32, bytes: &mut Bytes) -> (r: VgmResult<Commands>)
    requires
        bytes_view(*old(bytes)).len() < data_size || !(block_step(
            block_type,
            data_size,
            bytes_view(*old(bytes)),
        ) is Stuck),
    ensures
        ({
            let s = bytes_view(*old(bytes));
            let st = block_step(block_type, data_size, s);
            if s.len() < data_size {
                &&& bytes_view(*final(bytes)) == s
                &&& r is Err && is_underflow_error(r->Err_0, data_size as int, s.len() as int)
            } else {
                &&& bytes_view(*final(bytes)) == s.skip(step_len(st) as int)
                &&& st is Done ==> r is Ok && (r->Ok_0 matches Commands::DataBlock { block_type: b, data }
                    && b == block_type && block_content_ok(block_type, data_size, s, data))
                &&& st is Refused ==> r is Err && is_unknown_compression_error(r->Err_0, s[0])
            }
        }),
{
    let available = buf_len(bytes);
    if available < data_size as usize {
        return Err(VgmError::BufferUnderflow { offset: 0, needed: data_size as usize, available });
    }
    let data = DataBlockContent::parse_from_bytes(block_type, data_size, bytes)?;
    Ok(Commands::DataBlock { block_type, data })
}

/// Reads one command with the opcode table and the fixed data block limit
/// of `from_bytes` and `from_bytes_safe`.
fn read_command(bytes: &mut Bytes) -> (r: VgmResult<Commands>)
    requires
        !(command_step(bytes_view(*old(bytes)), None, fresh_tracker()) is Stuck),
    ensures
        ({
            let s = bytes_view(*old(bytes));
            let st = command_step(s, None, fresh_tracker());
            &&& bytes_view(*final(bytes)) == s.skip(step_len(st) as int)
            &&& st is Done ==> r is Ok && command_parsed(s, None, r->Ok_0)
            &&& st is Refused ==> r is Err && command_refused(s, None, fresh_tracker(), r->Err_0)
        }),
{
    let ghost s = bytes_view(*bytes);
    let op = buf_get_u8(bytes);
    if is_fixed_opcode(op, true) {
        let c = parse_fixed(op, bytes, true);
        proof {
            assert(bytes_view(*bytes) =~= s.skip(1 + fixed_operand_count(op, true)));
        }
        Ok(c)
    } else if op == 0x67 {
        read_compat_byte(0x67, bytes)?;
        let block_type = buf_get_u8(bytes);
        let data_size = buf_get_u32_le(bytes);
        proof {
            assert(bytes_view(*bytes) =~= s.skip(7));
            assert(seq_le32(s.skip(3), 0) == seq_le32(s, 3));
        }
        if data_size > MAX_DATA_BLOCK_SIZE {
            return Err(
                VgmError::DataSizeExceedsLimit {
                    field: String::from_str("DataBlock"),
                    size: data_size as usize,
                    limit: MAX_DATA_BLOCK_SIZE as usize,
                },
            );
        }
        let r = read_data_block_content(block_type, data_size, bytes);
        proof {
            if s.len() - 7 >= data_size {
                assert(s.skip(7).skip(step_len(block_step(block_type, data_size, s.skip(7))) as int)
                    =~= s.skip(7 + step_len(block_step(block_type, data_size, s.skip(7))) as int));
            }
        }
        r
    } else if op == 0x68 {
        read_compat_byte(0x68, bytes)?;
        let chip_type = buf_get_u8(bytes);
        let read_offset = read_u24(bytes);
        let write_offset = read_u24(bytes);
        let mut size = read_u24(bytes);
        proof {
            assert(bytes_view(*bytes) =~= s.skip(12));
        }
        if size == 0 {
            size = 0x0100_0000;
        }
        let data = read_bytes(bytes, size as usize);
        proof {
            assert(data@ =~= s.subrange(12, 12 + pcm_size(s)));
            assert(bytes_view(*bytes) =~= s.skip(12 + pcm_size(s)));
        }
        Ok(Commands::PCMRAMWrite { chip_type, read_offset, write_offset, size, data })
    } else {
        Err(VgmError::UnknownCommand { opcode: op, position: 0 })
    }
}


impl Commands {
    /// Reads one command: its opcode, then the operands that the opcode
    /// calls for. An unknown opcode, or a data block or PCM RAM write without
    /// its 0x66 marker, is refused; data blocks are limited to
    /// `MAX_DATA_BLOCK_SIZE` bytes.
    pub fn from_bytes(bytes: &mut Bytes) -> (r: VgmResult<Commands>)
        requires
            !(command_step(bytes_view(*old(bytes)), None, fresh_tracker()) is Stuck),
        ensures
            ({
                let s = bytes_view(*old(bytes));
                let st = command_step(s, None, fresh_tracker());
                &&& bytes_view(*final(bytes)) == s.skip(step_len(st) as int)
                &&& st is Done ==> r is Ok && command_parsed(s, None, r->Ok_0)
                &&& st is Refused ==> r is Err && command_refused(s, None, fresh_tracker(), r->Err_0)
            }),
    {
        read_command(bytes)
    }

    /// Reads one command exactly as [`Commands::from_bytes`] does.
    pub fn from_bytes_safe(bytes: &mut Bytes) -> (r: VgmResult<Commands>)
        requires
            !(command_step(bytes_view(*old(bytes)), None, fresh_tracker()) is Stuck),
        ensures
            ({
                let s = bytes_view(*old(bytes));
                let st = command_step(s, None, fresh_tracker());
                &&& bytes_view(*final(bytes)) == s.skip(step_len(st) as int)
                &&& st is Done ==> r is Ok && command_parsed(s, None, r->Ok_0)
                &&& st is Refused ==> r is Err && command_refused(s, None, fresh_tracker(), r->Err_0)
            }),
    {
        read_command(bytes)
    }

    /// Reads one command within the limits of `config`, recording data
    /// blocks and PCM RAM writes in `tracker`. Opcodes 0xC3-0xC8 are unknown
    /// here, and 0xB7 is an OKIM6258 write.
    pub fn from_bytes_with_config(bytes: &mut Bytes, config: &ParserConfig, tracker: &mut ResourceTracker) -> (r:
        VgmResult<Commands>)
        requires
            !(command_step(bytes_view(*old(bytes)), Some(*config), *old(tracker)) is Stuck),
        ensures
            ({
                let s = bytes_view(*old(bytes));
                let st = command_step(s, Some(*config), *old(tracker));
                &&& bytes_view(*final(bytes)) == s.skip(step_len(st) as int)
                &&& *final(tracker) == command_tracker(s, *config, *old(tracker))
                &&& st is Done ==> r is Ok && command_parsed(s, Some(*config), r->Ok_0)
                &&& st is Refused ==> r is Err && command_refused(
                    s,
                    Some(*config),
                    *old(tracker),
                    r->Err_0,
                )
            }),
    {
        let ghost s = bytes_view(*bytes);
        let op = buf_get_u8(bytes);
        if is_fixed_opcode(op, false) {
            let c = parse_fixed(op, bytes, false);
            proof {
                assert(bytes_view(*bytes) =~= s.skip(1 + fixed_operand_count(op, false)));
            }
            Ok(c)
        } else if op == 0x67 {
            read_compat_byte(0x67, bytes)?;
            let block_type = buf_get_u8(bytes);
            let data_size = buf_get_u32_le(bytes);
            proof {
                assert(bytes_view(*bytes) =~= s.skip(7));
                assert(seq_le32(s.skip(3), 0) == seq_le32(s, 3));
            }
            config.check_data_block_size(data_size)?;
            tracker.track_data_block(config, data_size)?;
            let r = read_data_block_content(block_type, data_size, bytes);
            proof {
                if s.len() - 7 >= data_size {
                    assert(s.skip(7).skip(step_len(block_step(block_type, data_size, s.skip(7))) as int)
                        =~= s.skip(7 + step_len(block_step(block_type, data_size, s.skip(7))) as int));
                }
            }
            r
        } else if op == 0x68 {
            read_compat_byte(0x68, bytes)?;
            let chip_type = buf_get_u8(bytes);
            let read_offset = read_u24(bytes);
            let write_offset = read_u24(bytes);
            let mut size = read_u24(bytes);
            proof {
                assert(bytes_view(*bytes) =~= s.skip(12));
            }
            if size == 0 {
                size = 0x0100_0000;
            }
            if size as usize > config.max_command_memory {
                return Err(
                    VgmError::DataSizeExceedsLimit {
                        field: String::from_str("PCM RAM write data"),
                        size: size as usize,
                        limit: config.max_command_memory,
                    },
                );
            }
            let available = buf_len(bytes);
            if available < size as usize {
                return Err(VgmError::BufferUnderflow { offset: 0, needed: size as usize, available });
            }
            tracker.track_data_block(config, size)?;
            let data = read_bytes(bytes, size as usize);
            proof {
                assert(data@ =~= s.subrange(12, 12 + pcm_size(s)));
                assert(bytes_view(*bytes) =~= s.skip(12 + pcm_size(s)));
            }
            Ok(Commands::PCMRAMWrite { chip_type, read_offset, write_offset, size, data })
        } else {
            Err(VgmError::UnknownCommand { opcode: op, position: 0 })
        }
    }
}


/// How reading a stream of commands ends.
pub enum RunEnd {
    /// The end-of-data command was read, after `len` bytes and `count`
    /// commands (the end command included); `tracker` is the tracker after.
    Ended { len: nat, count: nat, tracker: ResourceTracker },
    /// A command, or the limit on commands, refused the stream after `len`
    /// bytes and `count` commands that were read.
    Failed { len: nat, count: nat, tracker: ResourceTracker },
    /// Reading runs past the end of the buffer or an arithmetic limit.
    Stuck,
}

/// The end of a run that `len` bytes and `count` commands precede.
pub open spec fn run_after(len: nat, count: nat, e: RunEnd) -> RunEnd {
    match e {
        RunEnd::Ended { len: l, count: c, tracker } => RunEnd::Ended { len: len + l, count: count + c, tracker },
        RunEnd::Failed { len: l, count: c, tracker } => RunEnd::Failed {
            len: len + l,
            count: count + c,
            tracker,
        },
        RunEnd::Stuck => RunEnd::Stuck,
    }
}

/// The tracker as the next command is read: with limits, it has counted it.
pub open spec fn counted(t: ResourceTracker, config: Option<ParserConfig>) -> ResourceTracker {
    match config {
        Some(_) => tracker_with_command(t),
        None => t,
    }
}

/// The tracker after a command read from `s`.
pub open spec fn tracker_after(s: Seq<u8>, config: Option<ParserConfig>, t: ResourceTracker) -> ResourceTracker {
    match config {
        Some(c) => command_tracker(s, c, t),
        None => t,
    }
}

/// Whether the limits (if any) refuse to count another command.
pub open spec fn count_refused(t: ResourceTracker, config: Option<ParserConfig>) -> bool {
    match config {
        Some(c) => !track_command_accepts(t, c),
        None => false,
    }
}

/// Whether counting another command under the limits (if any) could overflow.
pub open spec fn count_stuck(t: ResourceTracker, config: Option<ParserConfig>) -> bool {
    match config {
        Some(c) => !can_track_command(t, c),
        None => false,
    }
}

/// How reading commands from `s` until the end-of-data command ends; with
/// limits, each command is counted before it is read.
pub open spec fn run_end(s: Seq<u8>, config: Option<ParserConfig>, t: ResourceTracker) -> RunEnd
    decreases s.len(),
{
    if count_stuck(t, config) {
        RunEnd::Stuck
    } else if count_refused(t, config) {
        RunEnd::Failed { len: 0, count: 0, tracker: counted(t, config) }
    } else {
        let t1 = counted(t, config);
        let t2 = tracker_after(s, config, t1);
        match command_step(s, config, t1) {
            Step::Stuck => RunEnd::Stuck,
            Step::Refused { len } => RunEnd::Failed { len, count: 0, tracker: t2 },
            Step::Done { len } => {
                if s[0] == 0x66 {
                    RunEnd::Ended { len, count: 1, tracker: t2 }
                } else if len == 0 || len > s.len() {
                    RunEnd::Stuck
                } else {
                    run_after(len, 1, run_end(s.skip(len as int), config, t2))
                }
            },
        }
    }
}

/// Reading commands under limits never counts more commands than the
/// limits allow: a read that ends with the end-of-data command has read at
/// most `max_commands` commands in all, counting those counted before.
pub proof fn lemma_run_within_command_limit(s: Seq<u8>, c: ParserConfig, t: ResourceTracker)
    ensures
        run_end(s, Some(c), t) matches RunEnd::Ended { count, .. } ==> t.command_count + count <= c.max_commands,
    decreases s.len(),
{
    if !count_stuck(t, Some(c)) && !count_refused(t, Some(c)) {
        let t1 = counted(t, Some(c));
        let t2 = tracker_after(s, Some(c), t1);
        assert(t2.command_count == t1.command_count);
        match command_step(s, Some(c), t1) {
            Step::Done { len } => {
                if s[0] != 0x66 && len != 0 && len <= s.len() {
                    lemma_run_within_command_limit(s.skip(len as int), c, t2);
                }
            },
            _ => {},
        }
    }
}

/// Reading commands under limits keeps the memory of the data blocks it has
/// counted within `max_total_data_block_memory`, where it started within it.
pub proof fn lemma_run_within_block_memory(s: Seq<u8>, c: ParserConfig, t: ResourceTracker)
    requires
        t.data_block_memory <= c.max_total_data_block_memory,
    ensures
        run_end(s, Some(c), t) matches RunEnd::Ended { tracker, .. } ==> tracker.data_block_memory
            <= c.max_total_data_block_memory,
        run_end(s, Some(c), t) matches RunEnd::Failed { tracker, .. } ==> tracker.data_block_memory
            <= c.max_total_data_block_memory,
    decreases s.len(),
{
    if !count_stuck(t, Some(c)) && !count_refused(t, Some(c)) {
        let t1 = counted(t, Some(c));
        let t2 = tracker_after(s, Some(c), t1);
        assert(t2.data_block_memory <= c.max_total_data_block_memory);
        match command_step(s, Some(c), t1) {
            Step::Done { len } => {
                if s[0] != 0x66 && len != 0 && len <= s.len() {
                    lemma_run_within_block_memory(s.skip(len as int), c, t2);
                }
            },
            _ => {},
        }
    }
}

/// Whether `cmds` are the first commands that reading `s` yields.
pub open spec fn run_commands(s: Seq<u8>, config: Option<ParserConfig>, t: ResourceTracker, cmds: Seq<Commands>) -> bool
    decreases cmds.len(),
{
    if cmds.len() == 0 {
        true
    } else {
        let t1 = counted(t, config);
        let len = step_len(command_step(s, config, t1));
        &&& command_parsed(s, config, cmds[0])
        &&& run_commands(s.skip(len as int), config, tracker_after(s, config, t1), cmds.drop_first())
    }
}

/// Whether `e` is the error that ends reading `s` (where the run fails).
pub open spec fn run_error(s: Seq<u8>, config: Option<ParserConfig>, t: ResourceTracker, e: VgmError) -> bool
    decreases s.len(),
{
    if count_refused(t, config) {
        match config {
            Some(c) => track_command_error(t, c, e),
            None => false,
        }
    } else {
        let t1 = counted(t, config);
        match command_step(s, config, t1) {
            Step::Stuck => false,
            Step::Refused { .. } => command_refused(s, config, t1, e),
            Step::Done { len } => {
                if s[0] == 0x66 || len == 0 || len > s.len() {
                    false
                } else {
                    run_error(s.skip(len as int), config, tracker_after(s, config, t1), e)
                }
            },
        }
    }
}

/// Whether the end-of-data command was read from `s` (where the step is `Done`).
proof fn lemma_end_command(s: Seq<u8>, config: Option<ParserConfig>, c: Commands)
    requires
        s.len() >= 1,
        fixed_operand_count(s[0], config is None) >= 0 || s[0] == 0x67 || s[0] == 0x68,
        command_parsed(s, config, c),
    ensures
        (c == Commands::EndOfSoundData) <==> s[0] == 0x66,
{
}

/// Parses commands within the limits of `config` until the end-of-data
/// command, which is the last one returned. The first refused command, or
/// the first one over the command limits, ends the parse with its error.
pub fn parse_commands_with_config(data: &mut Bytes, config: &ParserConfig, tracker: &mut ResourceTracker) -> (r:
    VgmResult<Vec<Commands>>)
    requires
        !(run_end(bytes_view(*old(data)), Some(*config), *old(tracker)) is Stuck),
    ensures
        ({
            let s = bytes_view(*old(data));
            match run_end(s, Some(*config), *old(tracker)) {
                RunEnd::Ended { len, count, tracker: t } => {
                    &&& r is Ok
                    &&& r->Ok_0@.len() == count
                    &&& run_commands(s, Some(*config), *old(tracker), r->Ok_0@)
                    &&& bytes_view(*final(data)) == s.skip(len as int)
                    &&& *final(tracker) == t
                },
                RunEnd::Failed { len, tracker: t, .. } => {
                    &&& r is Err
                    &&& run_error(s, Some(*config), *old(tracker), r->Err_0)
                    &&& bytes_view(*final(data)) == s.skip(len as int)
                    &&& *final(tracker) == t
                },
                RunEnd::Stuck => false,
            }
        }),
{
    let ghost s0 = bytes_view(*data);
    let ghost t0 = *tracker;
    let ghost cfg = Some(*config);
    let mut commands: Vec<Commands> = Vec::new();
    let ghost mut k: nat = 0;
    loop
        invariant_except_break
            run_end(s0, cfg, t0) == run_after(k, commands@.len(), run_end(bytes_view(*data), cfg, *tracker)),
            forall|rest: Seq<Commands>|
                run_commands(bytes_view(*data), cfg, *tracker, rest) ==> run_commands(
                    s0,
                    cfg,
                    t0,
                    commands@ + rest,
                ),
            forall|e: VgmError|
                run_error(bytes_view(*data), cfg, *tracker, e) ==> run_error(s0, cfg, t0, e),
        invariant
            s0 == bytes_view(*old(data)),
            t0 == *old(tracker),
            bytes_view(*data) == s0.skip(k as int),
            k <= s0.len(),
            cfg == Some(*config),
            !(run_end(s0, cfg, t0) is Stuck),
        ensures
            run_end(s0, cfg, t0) == (RunEnd::Ended { len: k, count: commands@.len(), tracker: *tracker }),
            run_commands(s0, cfg, t0, commands@),
        decreases bytes_view(*data).len(),
    {
        let ghost cur = bytes_view(*data);
        let ghost tcur = *tracker;
        let counted_ok = tracker.track_command(config);
        if let Err(e) = counted_ok {
            proof {
                assert(run_end(cur, cfg, tcur) == (RunEnd::Failed { len: 0, count: 0, tracker: *tracker }));
                assert(run_error(cur, cfg, tcur, e));
                assert(s0.skip(k as int) =~= s0.skip((k + 0) as int));
            }
            return Err(e);
        }
        let ghost t1 = *tracker;
        let cmd = Commands::from_bytes_with_config(data, config, tracker);
        proof {
            assert(t1 == counted(tcur, cfg));
            assert(*tracker == tracker_after(cur, cfg, t1));
        }
        match cmd {
            Ok(c) => {
                let ghost len = step_len(command_step(cur, cfg, t1));
                proof {
                    lemma_end_command(cur, cfg, c);
                    assert(commands@.push(c) =~= commands@ + seq![c]);
                    assert forall|rest: Seq<Commands>|
                        run_commands(bytes_view(*data), cfg, *tracker, rest) implies run_commands(
                            s0,
                            cfg,
                            t0,
                            commands@.push(c) + rest,
                        ) by {
                        assert((seq![c] + rest).drop_first() =~= rest);
                        assert((seq![c] + rest)[0] == c);
                        assert(run_commands(cur, cfg, tcur, seq![c] + rest));
                        assert(commands@.push(c) + rest =~= commands@ + (seq![c] + rest));
                    }
                    assert(cur.skip(len as int) =~= s0.skip((k + len) as int));
                }
                let is_end = match c {
                    Commands::EndOfSoundData => true,
                    _ => false,
                };
                commands.push(c);
                proof {
                    k = k + len;
                }
                if is_end {
                    proof {
                        assert(run_end(cur, cfg, tcur) == (RunEnd::Ended { len, count: 1, tracker: *tracker }));
                        assert(run_commands(bytes_view(*data), cfg, *tracker, Seq::<Commands>::empty()));
                        assert(run_commands(s0, cfg, t0, commands@ + Seq::<Commands>::empty()));
                        assert(commands@ + Seq::<Commands>::empty() =~= commands@);
                    }
                    break;
                }
                proof {
                    assert(run_end(cur, cfg, tcur) == run_after(
                        len,
                        1,
                        run_end(bytes_view(*data), cfg, *tracker),
                    ));
                    assert forall|e: VgmError|
                        run_error(bytes_view(*data), cfg, *tracker, e) implies run_error(
                            s0,
                            cfg,
                            t0,
                            e,
                        ) by {
                        assert(run_error(cur, cfg, tcur, e));
                    }
                }
            },
            Err(e) => {
                proof {
                    let len = step_len(command_step(cur, cfg, t1));
                    assert(run_end(cur, cfg, tcur) == (RunEnd::Failed { len, count: 0, tracker: *tracker }));
                    assert(run_error(cur, cfg, tcur, e));
                    assert(cur.skip(len as int) =~= s0.skip((k + len) as int));
                }
                return Err(e);
            },
        }
    }
    Ok(commands)
}


/// The number of bytes that a run consumed.
pub open spec fn run_len(e: RunEnd) -> nat {
    match e {
        RunEnd::Ended { len, .. } => len,
        RunEnd::Failed { len, .. } => len,
        RunEnd::Stuck => 0,
    }
}

/// The number of commands that a run read.
pub open spec fn run_count(e: RunEnd) -> nat {
    match e {
        RunEnd::Ended { count, .. } => count,
        RunEnd::Failed { count, .. } => count,
        RunEnd::Stuck => 0,
    }
}

/// Parses commands within the default limits until the end-of-data
/// command; where the parse fails, no command is returned.
pub fn parse_commands(data: &mut Bytes) -> (v: Vec<Commands>)
    requires
        !(run_end(bytes_view(*old(data)), Some(default_limits()), fresh_tracker()) is Stuck),
    ensures
        ({
            let s = bytes_view(*old(data));
            let end = run_end(s, Some(default_limits()), fresh_tracker());
            &&& bytes_view(*final(data)) == s.skip(run_len(end) as int)
            &&& end is Ended ==> v@.len() == run_count(end) && run_commands(
                s,
                Some(default_limits()),
                fresh_tracker(),
                v@,
            )
            &&& end is Failed ==> v@.len() == 0
        }),
{
    let config = ParserConfig::default();
    let mut tracker = ResourceTracker::new();
    match parse_commands_with_config(data, &config, &mut tracker) {
        Ok(commands) => commands,
        Err(_) => Vec::new(),
    }
}

/// Parses commands with `Commands::from_bytes_safe` until the end-of-data
/// command or the first refused command, and returns those read.
pub fn parse_commands_safe(data: &mut Bytes) -> (v: Vec<Commands>)
    requires
        !(run_end(bytes_view(*old(data)), None, fresh_tracker()) is Stuck),
    ensures
        ({
            let s = bytes_view(*old(data));
            let end = run_end(s, None, fresh_tracker());
            &&& bytes_view(*final(data)) == s.skip(run_len(end) as int)
            &&& v@.len() == run_count(end)
            &&& run_commands(s, None, fresh_tracker(), v@)
        }),
{
    let ghost s0 = bytes_view(*data);
    let ghost t0 = fresh_tracker();
    let mut commands: Vec<Commands> = Vec::new();
    let ghost mut k: nat = 0;
    loop
        invariant_except_break
            run_end(s0, None, t0) == run_after(k, commands@.len(), run_end(bytes_view(*data), None, t0)),
            forall|rest: Seq<Commands>|
                run_commands(bytes_view(*data), None, t0, rest) ==> run_commands(
                    s0,
                    None,
                    t0,
                    commands@ + rest,
                ),
        invariant
            s0 == bytes_view(*old(data)),
            t0 == fresh_tracker(),
            bytes_view(*data) == s0.skip(k as int),
            k <= s0.len(),
            !(run_end(s0, None, t0) is Stuck),
        ensures
            run_len(run_end(s0, None, t0)) == k,
            run_count(run_end(s0, None, t0)) == commands@.len(),
            run_commands(s0, None, t0, commands@),
        decreases bytes_view(*data).len(),
    {
        let ghost cur = bytes_view(*data);
        let cmd = Commands::from_bytes_safe(data);
        let ghost len = step_len(command_step(cur, None, t0));
        match cmd {
            Ok(c) => {
                proof {
                    lemma_end_command(cur, None, c);
                    assert forall|rest: Seq<Commands>|
                        run_commands(bytes_view(*data), None, t0, rest) implies run_commands(
                            s0,
                            None,
                            t0,
                            commands@.push(c) + rest,
                        ) by {
                        assert((seq![c] + rest).drop_first() =~= rest);
                        assert((seq![c] + rest)[0] == c);
                        assert(run_commands(cur, None, t0, seq![c] + rest));
                        assert(commands@.push(c) + rest =~= commands@ + (seq![c] + rest));
                    }
                    assert(cur.skip(len as int) =~= s0.skip((k + len) as int));
                }
                let is_end = match c {
                    Commands::EndOfSoundData => true,
                    _ => false,
                };
                commands.push(c);
                proof {
                    k = k + len;
                }
                if is_end {
                    proof {
                        assert(run_end(cur, None, t0) == (RunEnd::Ended { len, count: 1, tracker: t0 }));
                        assert(run_commands(bytes_view(*data), None, t0, Seq::<Commands>::empty()));
                        assert(run_commands(s0, None, t0, commands@ + Seq::<Commands>::empty()));
                        assert(commands@ + Seq::<Commands>::empty() =~= commands@);
                    }
                    break;
                }
                proof {
                    assert(run_end(cur, None, t0) == run_after(len, 1, run_end(bytes_view(*data), None, t0)));
                }
            },
            Err(_) => {
                proof {
                    assert(run_end(cur, None, t0) == (RunEnd::Failed { len, count: 0, tracker: t0 }));
                    assert(cur.skip(len as int) =~= s0.skip((k + len) as int));
                    assert(run_commands(cur, None, t0, Seq::<Commands>::empty()));
                    assert(commands@ + Seq::<Commands>::empty() =~= commands@);
                    k = k + len;
                }
                break;
            },
        }
    }
    commands
}

/// The number of operand bytes of a fixed-size opcode, or -1 where `op` is
/// not one.
fn fixed_operand_count_of(op: u8, legacy: bool) -> (k: i8)
    ensures
        k == fixed_operand_count(op, legacy),
{
    match op {
        0x30 => 1,
        0x31 => 1,
        0x3F => 1,
        0x4F => 1,
        0x50 => 1,
        0x51 => 2,
        0x52 => 2,
        0x53 => 2,
        0x54 => 2,
        0x55 => 2,
        0x56 => 2,
        0x57 => 2,
        0x58 => 2,
        0x59 => 2,
        0x5A => 2,
        0x5B => 2,
        0x5C => 2,
        0x5D => 2,
        0x5E => 2,
        0x5F => 2,
        0x61 => 2,
        0x62 => 0,
        0x63 => 0,
        0x66 => 0,
        0x70 => 0,
        0x71 => 0,
        0x72 => 0,
        0x73 => 0,
        0x74 => 0,
        0x75 => 0,
        0x76 => 0,
        0x77 => 0,
        0x78 => 0,
        0x79 => 0,
        0x7A => 0,
        0x7B => 0,
        0x7C => 0,
        0x7D => 0,
        0x7E => 0,
        0x7F => 0,
        0x80 => 0,
        0x81 => 0,
        0x82 => 0,
        0x83 => 0,
        0x84 => 0,
        0x85 => 0,
        0x86 => 0,
        0x87 => 0,
        0x88 => 0,
        0x89 => 0,
        0x8A => 0,
        0x8B => 0,
        0x8C => 0,
        0x8D => 0,
        0x8E => 0,
        0x8F => 0,
        0x90 => 4,
        0x91 => 4,
        0x92 => 5,
        0x93 => 10,
        0x94 => 1,
        0x95 => 4,
        0xA0 => 2,
        0xA1 => 2,
        0xA2 => 2,
        0xA3 => 2,
        0xA4 => 2,
        0xA5 => 2,
        0xA6 => 2,
        0xA7 => 2,
        0xA8 => 2,
        0xA9 => 2,
        0xAA => 2,
        0xAB => 2,
        0xAC => 2,
        0xAD => 2,
        0xAE => 2,
        0xAF => 2,
        0xB0 => 2,
        0xB1 => 2,
        0xB2 => 3,
        0xB3 => 2,
        0xB4 => 2,
        0xB5 => 2,
        0xB6 => 2,
        0xB7 => 2,
        0xB8 => 2,
        0xB9 => 2,
        0xBA => 2,
        0xBB => 2,
        0xBC => 2,
        0xBD => 2,
        0xBE => 2,
        0xBF => 2,
        0xC0 => 3,
        0xC1 => 3,
        0xC2 => 3,
        0xC3 => if legacy { 3 } else { -1 },
        0xC4 => if legacy { 3 } else { -1 },
        0xC5 => if legacy { 3 } else { -1 },
        0xC6 => if legacy { 3 } else { -1 },
        0xC7 => if legacy { 3 } else { -1 },
        0xC8 => if legacy { 3 } else { -1 },
        0xD0 => 3,
        0xD1 => 3,
        0xD2 => 3,
        0xD3 => 3,
        0xD4 => 3,
        0xD5 => 3,
        0xD6 => 3,
        0xE0 => 4,
        0xE1 => 4,
        _ => -1i8,
    }
}

/// How reading an item from a buffer goes, as far as the bytes tell: read
/// with the number of bytes it takes, refused, or running past the end.
pub(crate) enum Probe {
    Done(usize),
    Refused,
    Stuck,
}

/// Whether probe `o` tells the kind of step `st` (and its length, where it is done).
pub(crate) open spec fn probe_is(o: Probe, st: Step) -> bool {
    match o {
        Probe::Done(l) => st is Done && step_len(st) == l,
        Probe::Refused => st is Refused,
        Probe::Stuck => st is Stuck,
    }
}

/// The little-endian `u32` at index `i` of `v`.
pub(crate) fn vec_le32(v: &Vec<u8>, i: usize) -> (r: u32)
    requires
        i + 4 <= v.len(),
    ensures
        r == seq_le32(v@, i as int),
{
    (v[i] as u32) | ((v[i + 1] as u32) << 8u32) | ((v[i + 2] as u32) << 16u32) | ((v[i + 3] as u32) << 24u32)
}

/// The little-endian 24-bit value at index `i` of `v`.
fn vec_le24(v: &Vec<u8>, i: usize) -> (r: u32)
    requires
        i + 3 <= v.len(),
    ensures
        r == seq_le24(v@, i as int),
{
    (v[i] as u32) | ((v[i + 1] as u32) << 8u32) | ((v[i + 2] as u32) << 16u32)
}

/// Whether the tracker can record a block of `size` bytes without overflow
/// (`can_track_data_block`), and whether it accepts it.
fn block_tracking(t: &ResourceTracker, c: &ParserConfig, size: u32) -> (r: (bool, bool))
    ensures
        r.0 == can_track_data_block(*t, *c, size),
        r.1 == track_data_block_accepts(*t, *c, size),
{
    let fits = t.data_block_memory.checked_add(size as usize);
    let can = if size > c.max_data_block_size {
        true
    } else {
        match fits {
            None => false,
            Some(m) => m > c.max_total_data_block_memory || t.data_block_count < usize::MAX,
        }
    };
    let accepts = size <= c.max_data_block_size && match fits {
        None => false,
        Some(m) => m <= c.max_total_data_block_memory,
    };
    (can, accepts)
}

/// The tracker after it has recorded a block of `size` bytes.
fn with_block(t: &ResourceTracker, size: u32) -> (r: ResourceTracker)
    requires
        t.data_block_memory + size <= usize::MAX,
        t.data_block_count < usize::MAX,
    ensures
        r == tracker_with_block(*t, size),
{
    ResourceTracker {
        command_count: t.command_count,
        data_block_memory: t.data_block_memory + size as usize,
        parsing_depth: t.parsing_depth,
        data_block_count: t.data_block_count + 1,
    }
}

/// A copy of a tracker.
fn same_tracker(t: &ResourceTracker) -> (r: ResourceTracker)
    ensures
        r == *t,
{
    ResourceTracker {
        command_count: t.command_count,
        data_block_memory: t.data_block_memory,
        parsing_depth: t.parsing_depth,
        data_block_count: t.data_block_count,
    }
}

/// How the data block content of a block of type `bt` and `size` bytes,
/// starting at index `at` of `v`, is read.
fn block_probe(v: &Vec<u8>, at: usize, bt: u8, size: u32) -> (o: Probe)
    requires
        at <= v@.len(),
    ensures
        probe_is(o, block_step(bt, size, v@.skip(at as int))),
{
    let rem = v.len() - at;
    if bt <= 0x3F {
        if rem < size as usize {
            Probe::Stuck
        } else {
            Probe::Done(size as usize)
        }
    } else if bt <= 0x7E {
        let payload: usize = if size >= 9 { (size - 9) as usize } else { 0 };
        if rem < 5 {
            Probe::Stuck
        } else if v[at] != 0 && v[at] != 1 {
            Probe::Refused
        } else if rem < 10 || rem - 10 < payload {
            Probe::Stuck
        } else {
            Probe::Done(10 + payload)
        }
    } else {
        let h: usize = if bt == 0x7F {
            6
        } else if bt <= 0xBF {
            8
        } else if bt <= 0xDF {
            2
        } else {
            4
        };
        if rem < h || (size as usize) < h || rem < size as usize {
            Probe::Stuck
        } else {
            Probe::Done(size as usize)
        }
    }
}

/// How the command at index `pos` of `v` is read under `c` with tracker
/// `t`, and the tracker after it where it is read.
#[verifier::rlimit(40)]
fn command_probe(v: &Vec<u8>, pos: usize, c: &ParserConfig, t: &ResourceTracker) -> (r: (Probe, ResourceTracker))
    requires
        pos <= v@.len(),
    ensures
        probe_is(r.0, command_step(v@.skip(pos as int), Some(*c), *t)),
        r.0 is Done ==> r.1 == command_tracker(v@.skip(pos as int), *c, *t),
{
    let ghost s = v@.skip(pos as int);
    let n = v.len() - pos;
    if n < 1 {
        return (Probe::Stuck, same_tracker(t));
    }
    let op = v[pos];
    let k = fixed_operand_count_of(op, false);
    if k >= 0 {
        let need = 1 + k as usize;
        if n < need {
            return (Probe::Stuck, same_tracker(t));
        }
        return (Probe::Done(need), same_tracker(t));
    }
    if op != 0x67 && op != 0x68 {
        return (Probe::Refused, same_tracker(t));
    }
    if n < 2 {
        return (Probe::Stuck, same_tracker(t));
    }
    if v[pos + 1] != 0x66 {
        return (Probe::Refused, same_tracker(t));
    }
    if op == 0x67 {
        if n < 7 {
            return (Probe::Stuck, same_tracker(t));
        }
        let size = vec_le32(v, pos + 3);
        proof {
            assert(seq_le32(s, 3) == seq_le32(v@, pos + 3));
        }
        if size > c.max_data_block_size {
            return (Probe::Refused, same_tracker(t));
        }
        let (can, accepts) = block_tracking(t, c, size);
        if !can {
            return (Probe::Stuck, same_tracker(t));
        }
        if !accepts || n - 7 < size as usize {
            return (Probe::Refused, same_tracker(t));
        }
        let b = block_probe(v, pos + 7, v[pos + 2], size);
        proof {
            assert(s.skip(7) =~= v@.skip(pos + 7));
        }
        let t2 = with_block(t, size);
        match b {
            Probe::Done(l) => (Probe::Done(7 + l), t2),
            Probe::Refused => (Probe::Refused, t2),
            Probe::Stuck => (Probe::Stuck, t2),
        }
    } else {
        if n < 12 {
            return (Probe::Stuck, same_tracker(t));
        }
        let raw = vec_le24(v, pos + 9);
        proof {
            assert(seq_le24(s, 9) == seq_le24(v@, pos + 9));
        }
        let size: u32 = if raw == 0 { 0x0100_0000 } else { raw };
        if size as usize > c.max_command_memory || n - 12 < size as usize {
            return (Probe::Refused, same_tracker(t));
        }
        let (can, accepts) = block_tracking(t, c, size);
        if !can {
            return (Probe::Stuck, same_tracker(t));
        }
        if !accepts {
            return (Probe::Refused, same_tracker(t));
        }
        (Probe::Done(12 + size as usize), with_block(t, size))
    }
}

/// Whether reading commands from index `start` of `v` under `c`, with a
/// fresh tracker, runs past the end of the buffer or an arithmetic limit.
pub(crate) fn run_is_stuck(v: &Vec<u8>, start: usize, c: &ParserConfig) -> (b: bool)
    requires
        start <= v@.len(),
    ensures
        b == (run_end(v@.skip(start as int), Some(*c), fresh_tracker()) is Stuck),
{
    let ghost cfg = Some(*c);
    let mut pos = start;
    let mut t = ResourceTracker { command_count: 0, data_block_memory: 0, parsing_depth: 0, data_block_count: 0 };
    loop
        invariant
            start <= pos <= v@.len(),
            cfg == Some(*c),
            (run_end(v@.skip(start as int), cfg, fresh_tracker()) is Stuck) == (run_end(
                v@.skip(pos as int),
                cfg,
                t,
            ) is Stuck),
        decreases v@.len() - pos,
    {
        let ghost cur = v@.skip(pos as int);
        if t.command_count == usize::MAX {
            return true;
        }
        let next = t.command_count + 1;
        let estimate = next.checked_mul(100);
        if c.strict_resource_limits && estimate.is_none() {
            return true;
        }
        proof {
            assert(!count_stuck(t, cfg));
        }
        let within_memory = match estimate {
            Some(m) => m <= c.max_command_memory,
            None => false,
        };
        if !(next <= c.max_commands && (!c.strict_resource_limits || within_memory)) {
            proof {
                assert(count_refused(t, cfg));
            }
            return false;
        }
        let t1 = ResourceTracker {
            command_count: next,
            data_block_memory: t.data_block_memory,
            parsing_depth: t.parsing_depth,
            data_block_count: t.data_block_count,
        };
        assert(t1 == counted(t, cfg));
        let (o, t2) = command_probe(v, pos, c, &t1);
        match o {
            Probe::Stuck => {
                return true;
            },
            Probe::Refused => {
                return false;
            },
            Probe::Done(len) => {
                if v[pos] == 0x66 {
                    return false;
                }
                if len == 0 || len > v.len() - pos {
                    return true;
                }
                proof {
                    assert(t2 == tracker_after(cur, cfg, t1));
                    assert(cur.skip(len as int) =~= v@.skip(pos + len));
                }
                pos = pos + len;
                t = t2;
            },
        }
    }
}

/// Whether two data block contents agree in every field, byte vectors by
/// their contents.
pub open spec fn contents_agree(a: DataBlockContent, b: DataBlockContent) -> bool {
    match (a, b) {
        (
            DataBlockContent::UncompressedStream { chip_type: x, data: d },
            DataBlockContent::UncompressedStream { chip_type: y, data: e },
        ) => x == y && d@ == e@,
        (
            DataBlockContent::CompressedStream { chip_type: x, compression: p, uncompressed_size: n, data: d },
            DataBlockContent::CompressedStream { chip_type: y, compression: q, uncompressed_size: m, data: e },
        ) => x == y && p == q && n == m && d@ == e@,
        (
            DataBlockContent::DecompressionTable {
                compression_type: t1,
                sub_type: u1,
                bits_decompressed: b1,
                bits_compressed: c1,
                value_count: v1,
                table_data: d,
            },
            DataBlockContent::DecompressionTable {
                compression_type: t2,
                sub_type: u2,
                bits_decompressed: b2,
                bits_compressed: c2,
                value_count: v2,
                table_data: e,
            },
        ) => t1 == t2 && u1 == u2 && b1 == b2 && c1 == c2 && v1 == v2 && d@ == e@,
        (
            DataBlockContent::ROMDump { chip_type: x, total_size: n, start_address: p, data: d },
            DataBlockContent::ROMDump { chip_type: y, total_size: m, start_address: q, data: e },
        ) => x == y && n == m && p == q && d@ == e@,
        (
            DataBlockContent::RAMWriteSmall { chip_type: x, start_address: p, data: d },
            DataBlockContent::RAMWriteSmall { chip_type: y, start_address: q, data: e },
        ) => x == y && p == q && d@ == e@,
        (
            DataBlockContent::RAMWriteLarge { chip_type: x, start_address: p, data: d },
            DataBlockContent::RAMWriteLarge { chip_type: y, start_address: q, data: e },
        ) => x == y && p == q && d@ == e@,
        (DataBlockContent::Unknown { data: d }, DataBlockContent::Unknown { data: e }) => d@ == e@,
        _ => false,
    }
}

/// Whether two commands agree in every field, byte vectors by their contents.
pub open spec fn commands_agree(a: Commands, b: Commands) -> bool {
    match (a, b) {
        (Commands::DataBlock { block_type: x, data: d }, Commands::DataBlock { block_type: y, data: e }) => x == y
            && contents_agree(d, e),
        (
            Commands::PCMRAMWrite { chip_type: c1, read_offset: r1, write_offset: w1, size: n1, data: d },
            Commands::PCMRAMWrite { chip_type: c2, read_offset: r2, write_offset: w2, size: n2, data: e },
        ) => c1 == c2 && r1 == r2 && w1 == w2 && n1 == n2 && d@ == e@,
        _ => a == b,
    }
}

/// Reading is determined by the bytes: any two commands that reading `s`
/// may give (under the same limits) agree in every field. `from_bytes` and
/// `from_bytes_safe` are specified by the same step and the same
/// `command_parsed`, so on the same bytes they leave the same bytes and give
/// the same command, or both an error.
pub proof fn lemma_command_read_determined(s: Seq<u8>, config: Option<ParserConfig>, c1: Commands, c2: Commands)
    requires
        command_parsed(s, config, c1),
        command_parsed(s, config, c2),
    ensures
        commands_agree(c1, c2),
{
}

/// A data block read from the bytes names the chip that the VGM format
/// assigns to its block type: stream blocks 0x00-0x08 (and compressed
/// 0x40-0x48) YM2612, RF5C68, RF5C164, PWM, OKIM6258, HuC6280, SCSP, NES APU
/// and Mikey; ROM dumps 0x80 Sega PCM, 0x81 YM2608 DELTA-T, 0x82 YM2610
/// ADPCM, 0x83 YM2610 DELTA-T, ... 0x93 Irem GA20; RAM writes 0xC0 RF5C68,
/// 0xC1 RF5C164, 0xC2 NES APU, 0xE0 SCSP, 0xE1 ES5503.
pub proof fn lemma_data_blocks_name_their_chip(s: Seq<u8>, config: Option<ParserConfig>, c: Commands)
    requires
        s.len() >= 3,
        s[0] == 0x67,
        command_parsed(s, config, c),
    ensures
        c matches Commands::DataBlock { block_type, .. } && block_type == s[2],
            (s[2] == 0x00 ==> c matches Commands::DataBlock { data: DataBlockContent::UncompressedStream { chip_type: StreamChipType::YM2612, .. }, .. }),
            (s[2] == 0x40 ==> c matches Commands::DataBlock { data: DataBlockContent::CompressedStream { chip_type: StreamChipType::YM2612, .. }, .. }),
            (s[2] == 0x01 ==> c matches Commands::DataBlock { data: DataBlockContent::UncompressedStream { chip_type: StreamChipType::RF5C68, .. }, .. }),
            (s[2] == 0x41 ==> c matches Commands::DataBlock { data: DataBlockContent::CompressedStream { chip_type: StreamChipType::RF5C68, .. }, .. }),
            (s[2] == 0x02 ==> c matches Commands::DataBlock { data: DataBlockContent::UncompressedStream { chip_type: StreamChipType::RF5C164, .. }, .. }),
            (s[2] == 0x42 ==> c matches Commands::DataBlock { data: DataBlockContent::CompressedStream { chip_type: StreamChipType::RF5C164, .. }, .. }),
            (s[2] == 0x03 ==> c matches Commands::DataBlock { data: DataBlockContent::UncompressedStream { chip_type: StreamChipType::PWM, .. }, .. }),
            (s[2] == 0x43 ==> c matches Commands::DataBlock { data: DataBlockContent::CompressedStream { chip_type: StreamChipType::PWM, .. }, .. }),
            (s[2] == 0x04 ==> c matches Commands::DataBlock { data: DataBlockContent::UncompressedStream { chip_type: StreamChipType::OKIM6258, .. }, .. }),
            (s[2] == 0x44 ==> c matches Commands::DataBlock { data: DataBlockContent::CompressedStream { chip_type: StreamChipType::OKIM6258, .. }, .. }),
            (s[2] == 0x05 ==> c matches Commands::DataBlock { data: DataBlockContent::UncompressedStream { chip_type: StreamChipType::HuC6280, .. }, .. }),
            (s[2] == 0x45 ==> c matches Commands::DataBlock { data: DataBlockContent::CompressedStream { chip_type: StreamChipType::HuC6280, .. }, .. }),
            (s[2] == 0x06 ==> c matches Commands::DataBlock { data: DataBlockContent::UncompressedStream { chip_type: StreamChipType::SCSP, .. }, .. }),
            (s[2] == 0x46 ==> c matches Commands::DataBlock { data: DataBlockContent::CompressedStream { chip_type: StreamChipType::SCSP, .. }, .. }),
            (s[2] == 0x07 ==> c matches Commands::DataBlock { data: DataBlockContent::UncompressedStream { chip_type: StreamChipType::NESAPU, .. }, .. }),
            (s[2] == 0x47 ==> c matches Commands::DataBlock { data: DataBlockContent::CompressedStream { chip_type: StreamChipType::NESAPU, .. }, .. }),
            (s[2] == 0x08 ==> c matches Commands::DataBlock { data: DataBlockContent::UncompressedStream { chip_type: StreamChipType::Mikey, .. }, .. }),
            (s[2] == 0x48 ==> c matches Commands::DataBlock { data: DataBlockContent::CompressedStream { chip_type: StreamChipType::Mikey, .. }, .. }),
            (s[2] == 0x80 ==> c matches Commands::DataBlock { data: DataBlockContent::ROMDump { chip_type: ROMDumpChipType::SegaPCM, .. }, .. }),
            (s[2] == 0x81 ==> c matches Commands::DataBlock { data: DataBlockContent::ROMDump { chip_type: ROMDumpChipType::YM2608DeltaT, .. }, .. }),
            (s[2] == 0x82 ==> c matches Commands::DataBlock { data: DataBlockContent::ROMDump { chip_type: ROMDumpChipType::YM2610ADPCM, .. }, .. }),
            (s[2] == 0x83 ==> c matches Commands::DataBlock { data: DataBlockContent::ROMDump { chip_type: ROMDumpChipType::YM2610DeltaT, .. }, .. }),
            (s[2] == 0x84 ==> c matches Commands::DataBlock { data: DataBlockContent::ROMDump { chip_type: ROMDumpChipType::YMF278B, .. }, .. }),
            (s[2] == 0x85 ==> c matches Commands::DataBlock { data: DataBlockContent::ROMDump { chip_type: ROMDumpChipType::YMF271, .. }, .. }),
            (s[2] == 0x86 ==> c matches Commands::DataBlock { data: DataBlockContent::ROMDump { chip_type: ROMDumpChipType::YMZ280B, .. }, .. }),
            (s[2] == 0x87 ==> c matches Commands::DataBlock { data: DataBlockContent::ROMDump { chip_type: ROMDumpChipType::YMF278BRAM, .. }, .. }),
            (s[2] == 0x88 ==> c matches Commands::DataBlock { data: DataBlockContent::ROMDump { chip_type: ROMDumpChipType::Y8950DeltaT, .. }, .. }),
            (s[2] == 0x89 ==> c matches Commands::DataBlock { data: DataBlockContent::ROMDump { chip_type: ROMDumpChipType::MultiPCM, .. }, .. }),
            (s[2] == 0x8A ==> c matches Commands::DataBlock { data: DataBlockContent::ROMDump { chip_type: ROMDumpChipType::UPD7759, .. }, .. }),
            (s[2] == 0x8B ==> c matches Commands::DataBlock { data: DataBlockContent::ROMDump { chip_type: ROMDumpChipType::OKIM6295, .. }, .. }),
            (s[2] == 0x8C ==> c matches Commands::DataBlock { data: DataBlockContent::ROMDump { chip_type: ROMDumpChipType::K054539, .. }, .. }),
            (s[2] == 0x8D ==> c matches Commands::DataBlock { data: DataBlockContent::ROMDump { chip_type: ROMDumpChipType::C140, .. }, .. }),
            (s[2] == 0x8E ==> c matches Commands::DataBlock { data: DataBlockContent::ROMDump { chip_type: ROMDumpChipType::K053260, .. }, .. }),
            (s[2] == 0x8F ==> c matches Commands::DataBlock { data: DataBlockContent::ROMDump { chip_type: ROMDumpChipType::QSound, .. }, .. }),
            (s[2] == 0x90 ==> c matches Commands::DataBlock { data: DataBlockContent::ROMDump { chip_type: ROMDumpChipType::ES5505_ES5506, .. }, .. }),
            (s[2] == 0x91 ==> c matches Commands::DataBlock { data: DataBlockContent::ROMDump { chip_type: ROMDumpChipType::X1010, .. }, .. }),
            (s[2] == 0x92 ==> c matches Commands::DataBlock { data: DataBlockContent::ROMDump { chip_type: ROMDumpChipType::C352, .. }, .. }),
            (s[2] == 0x93 ==> c matches Commands::DataBlock { data: DataBlockContent::ROMDump { chip_type: ROMDumpChipType::GA20, .. }, .. }),
            (s[2] == 0xC0 ==> c matches Commands::DataBlock { data: DataBlockContent::RAMWriteSmall { chip_type: RAMWriteChipType::RF5C68, .. }, .. }),
            (s[2] == 0xC1 ==> c matches Commands::DataBlock { data: DataBlockContent::RAMWriteSmall { chip_type: RAMWriteChipType::RF5C164, .. }, .. }),
            (s[2] == 0xC2 ==> c matches Commands::DataBlock { data: DataBlockContent::RAMWriteSmall { chip_type: RAMWriteChipType::NESAPU, .. }, .. }),
            (s[2] == 0xE0 ==> c matches Commands::DataBlock { data: DataBlockContent::RAMWriteLarge { chip_type: RAMWriteChipType::SCSP, .. }, .. }),
            (s[2] == 0xE1 ==> c matches Commands::DataBlock { data: DataBlockContent::RAMWriteLarge { chip_type: RAMWriteChipType::ES5503, .. }, .. }),
{
    lemma_low_six_bits(s[2]);
}

/// What each fixed-size opcode reads, by the VGM command table: 0x50 an
/// SN76489 write, 0x51 a YM2413 write, 0x52 and 0x53 YM2612 port 0 and 1
/// writes, 0x54 a YM2151 write, and so on; 0xA1-0xAF the same chips' second
/// instances; 0x61 a wait of a 16-bit little-endian number of samples, 0x62
/// and 0x63 waits of 735 and 882 samples, 0x70-0x7F waits of 1-16 samples,
/// 0x80-0x8F YM2612 DAC writes with waits of 0-15 samples. Opcodes
/// 0xC3-0xC8 are read this way only without limits.
#[verifier::rlimit(60)]
pub proof fn lemma_opcode_table(s: Seq<u8>, config: Option<ParserConfig>, cmd: Commands)
    requires
        s.len() >= 1,
        fixed_operand_count(s[0], config is None) >= 0,
        s.len() >= 1 + fixed_operand_count(s[0], config is None),
        command_parsed(s, config, cmd),
    ensures
        s[0] == 0x30 ==> cmd == ({ let v = s[1]; Commands::PSGWrite { value: v, chip_index: 1 } }),
        s[0] == 0x31 ==> cmd == ({ let v = s[1]; Commands::AY8910StereoMask { value: v } }),
        s[0] == 0x3F ==> cmd == ({ let v = s[1]; Commands::GameGearPSGStereo { value: v, chip_index: 1 } }),
        s[0] == 0x4F ==> cmd == ({ let v = s[1]; Commands::GameGearPSGStereo { value: v, chip_index: 0 } }),
        s[0] == 0x50 ==> cmd == ({ let v = s[1]; Commands::PSGWrite { value: v, chip_index: 0 } }),
        s[0] == 0x51 ==> cmd == ({ let r = s[1]; let v = s[2]; Commands::YM2413Write { register: r, value: v, chip_index: 0 } }),
        s[0] == 0x52 ==> cmd == ({ let r = s[1]; let v = s[2]; Commands::YM2612Port0Write { register: r, value: v, chip_index: 0 } }),
        s[0] == 0x53 ==> cmd == ({ let r = s[1]; let v = s[2]; Commands::YM2612Port1Write { register: r, value: v, chip_index: 0 } }),
        s[0] == 0x54 ==> cmd == ({ let r = s[1]; let v = s[2]; Commands::YM2151Write { register: r, value: v, chip_index: 0 } }),
        s[0] == 0x55 ==> cmd == ({ let r = s[1]; let v = s[2]; Commands::YM2203Write { register: r, value: v, chip_index: 0 } }),
        s[0] == 0x56 ==> cmd == ({ let r = s[1]; let v = s[2]; Commands::YM2608Port0Write { register: r, value: v, chip_index: 0 } }),
        s[0] == 0x57 ==> cmd == ({ let r = s[1]; let v = s[2]; Commands::YM2608Port1Write { register: r, value: v, chip_index: 0 } }),
        s[0] == 0x58 ==> cmd == ({ let r = s[1]; let v = s[2]; Commands::YM2610Port0Write { register: r, value: v, chip_index: 0 } }),
        s[0] == 0x59 ==> cmd == ({ let r = s[1]; let v = s[2]; Commands::YM2610Port1Write { register: r, value: v, chip_index: 0 } }),
        s[0] == 0x5A ==> cmd == ({ let r = s[1]; let v = s[2]; Commands::YM3812Write { register: r, value: v, chip_index: 0 } }),
        s[0] == 0x5B ==> cmd == ({ let r = s[1]; let v = s[2]; Commands::YM3526Write { register: r, value: v, chip_index: 0 } }),
        s[0] == 0x5C ==> cmd == ({ let r = s[1]; let v = s[2]; Commands::Y8950Write { register: r, value: v, chip_index: 0 } }),
        s[0] == 0x5D ==> cmd == ({ let r = s[1]; let v = s[2]; Commands::YMZ280BWrite { register: r, value: v, chip_index: 0 } }),
        s[0] == 0x5E ==> cmd == ({ let r = s[1]; let v = s[2]; Commands::YMF262Port0Write { register: r, value: v, chip_index: 0 } }),
        s[0] == 0x5F ==> cmd == ({ let r = s[1]; let v = s[2]; Commands::YMF262Port1Write { register: r, value: v, chip_index: 0 } }),
        s[0] == 0x61 ==> cmd == ({ let n = seq_le16(s, 1); Commands::WaitNSamples { n: n } }),
        s[0] == 0x62 ==> cmd == (Commands::Wait735Samples),
        s[0] == 0x63 ==> cmd == (Commands::Wait882Samples),
        s[0] == 0x66 ==> cmd == (Commands::EndOfSoundData),
        s[0] == 0x70 ==> cmd == (Commands::WaitNSamplesPlus1 { n: 0u8 }),
        s[0] == 0x71 ==> cmd == (Commands::WaitNSamplesPlus1 { n: 1u8 }),
        s[0] == 0x72 ==> cmd == (Commands::WaitNSamplesPlus1 { n: 2u8 }),
        s[0] == 0x73 ==> cmd == (Commands::WaitNSamplesPlus1 { n: 3u8 }),
        s[0] == 0x74 ==> cmd == (Commands::WaitNSamplesPlus1 { n: 4u8 }),
        s[0] == 0x75 ==> cmd == (Commands::WaitNSamplesPlus1 { n: 5u8 }),
        s[0] == 0x76 ==> cmd == (Commands::WaitNSamplesPlus1 { n: 6u8 }),
        s[0] == 0x77 ==> cmd == (Commands::WaitNSamplesPlus1 { n: 7u8 }),
        s[0] == 0x78 ==> cmd == (Commands::WaitNSamplesPlus1 { n: 8u8 }),
        s[0] == 0x79 ==> cmd == (Commands::WaitNSamplesPlus1 { n: 9u8 }),
        s[0] == 0x7A ==> cmd == (Commands::WaitNSamplesPlus1 { n: 10u8 }),
        s[0] == 0x7B ==> cmd == (Commands::WaitNSamplesPlus1 { n: 11u8 }),
        s[0] == 0x7C ==> cmd == (Commands::WaitNSamplesPlus1 { n: 12u8 }),
        s[0] == 0x7D ==> cmd == (Commands::WaitNSamplesPlus1 { n: 13u8 }),
        s[0] == 0x7E ==> cmd == (Commands::WaitNSamplesPlus1 { n: 14u8 }),
        s[0] == 0x7F ==> cmd == (Commands::WaitNSamplesPlus1 { n: 15u8 }),
        s[0] == 0x80 ==> cmd == (Commands::YM2612Port0Address2AWriteWait { n: 0u8 }),
        s[0] == 0x81 ==> cmd == (Commands::YM2612Port0Address2AWriteWait { n: 1u8 }),
        s[0] == 0x82 ==> cmd == (Commands::YM2612Port0Address2AWriteWait { n: 2u8 }),
        s[0] == 0x83 ==> cmd == (Commands::YM2612Port0Address2AWriteWait { n: 3u8 }),
        s[0] == 0x84 ==> cmd == (Commands::YM2612Port0Address2AWriteWait { n: 4u8 }),
        s[0] == 0x85 ==> cmd == (Commands::YM2612Port0Address2AWriteWait { n: 5u8 }),
        s[0] == 0x86 ==> cmd == (Commands::YM2612Port0Address2AWriteWait { n: 6u8 }),
        s[0] == 0x87 ==> cmd == (Commands::YM2612Port0Address2AWriteWait { n: 7u8 }),
        s[0] == 0x88 ==> cmd == (Commands::YM2612Port0Address2AWriteWait { n: 8u8 }),
        s[0] == 0x89 ==> cmd == (Commands::YM2612Port0Address2AWriteWait { n: 9u8 }),
        s[0] == 0x8A ==> cmd == (Commands::YM2612Port0Address2AWriteWait { n: 10u8 }),
        s[0] == 0x8B ==> cmd == (Commands::YM2612Port0Address2AWriteWait { n: 11u8 }),
        s[0] == 0x8C ==> cmd == (Commands::YM2612Port0Address2AWriteWait { n: 12u8 }),
        s[0] == 0x8D ==> cmd == (Commands::YM2612Port0Address2AWriteWait { n: 13u8 }),
        s[0] == 0x8E ==> cmd == (Commands::YM2612Port0Address2AWriteWait { n: 14u8 }),
        s[0] == 0x8F ==> cmd == (Commands::YM2612Port0Address2AWriteWait { n: 15u8 }),
        s[0] == 0x90 ==> cmd == ({ let id = s[1]; let t = s[2]; let p = s[3]; let c = s[4]; Commands::DACStreamSetupControl { stream_id: id, chip_type: t & 0x7F, port: p, command: c, chip_index: if t & 0x80 != 0 { 1u8 } else { 0u8 } } }),
        s[0] == 0x91 ==> cmd == ({ let id = s[1]; let b = s[2]; let l = s[3]; let sb = s[4]; Commands::DACStreamSetData { stream_id: id, data_bank_id: b, step_size: l, step_base: sb } }),
        s[0] == 0x92 ==> cmd == ({ let id = s[1]; let f = seq_le32(s, 2); Commands::DACStreamSetFrequency { stream_id: id, frequency: f } }),
        s[0] == 0x93 ==> cmd == ({ let id = s[1]; let o = seq_le32(s, 2); let m = s[6]; let l = seq_le32(s, 7); Commands::DACStreamStart { stream_id: id, data_start_offset: o, length_mode: m, data_length: l } }),
        s[0] == 0x94 ==> cmd == ({ let id = s[1]; Commands::DACStreamStop { stream_id: id } }),
        s[0] == 0x95 ==> cmd == ({ let id = s[1]; let b = seq_le16(s, 2); let f = s[4]; Commands::DACStreamStartFast { stream_id: id, block_id: b, flags: f } }),
        s[0] == 0xA0 ==> cmd == ({ let r = s[1]; let v = s[2]; Commands::AY8910Write { register: r & 0x7F, value: v, chip_index: if r & 0x80 != 0 { 1u8 } else { 0u8 } } }),
        s[0] == 0xA1 ==> cmd == ({ let r = s[1]; let v = s[2]; Commands::YM2413Write { register: r, value: v, chip_index: 1 } }),
        s[0] == 0xA2 ==> cmd == ({ let r = s[1]; let v = s[2]; Commands::YM2612Port0Write { register: r, value: v, chip_index: 1 } }),
        s[0] == 0xA3 ==> cmd == ({ let r = s[1]; let v = s[2]; Commands::YM2612Port1Write { register: r, value: v, chip_index: 1 } }),
        s[0] == 0xA4 ==> cmd == ({ let r = s[1]; let v = s[2]; Commands::YM2151Write { register: r, value: v, chip_index: 1 } }),
        s[0] == 0xA5 ==> cmd == ({ let r = s[1]; let v = s[2]; Commands::YM2203Write { register: r, value: v, chip_index: 1 } }),
        s[0] == 0xA6 ==> cmd == ({ let r = s[1]; let v = s[2]; Commands::YM2608Port0Write { register: r, value: v, chip_index: 1 } }),
        s[0] == 0xA7 ==> cmd == ({ let r = s[1]; let v = s[2]; Commands::YM2608Port1Write { register: r, value: v, chip_index: 1 } }),
        s[0] == 0xA8 ==> cmd == ({ let r = s[1]; let v = s[2]; Commands::YM2610Port0Write { register: r, value: v, chip_index: 1 } }),
        s[0] == 0xA9 ==> cmd == ({ let r = s[1]; let v = s[2]; Commands::YM2610Port1Write { register: r, value: v, chip_index: 1 } }),
        s[0] == 0xAA ==> cmd == ({ let r = s[1]; let v = s[2]; Commands::YM3812Write { register: r, value: v, chip_index: 1 } }),
        s[0] == 0xAB ==> cmd == ({ let r = s[1]; let v = s[2]; Commands::YM3526Write { register: r, value: v, chip_index: 1 } }),
        s[0] == 0xAC ==> cmd == ({ let r = s[1]; let v = s[2]; Commands::Y8950Write { register: r, value: v, chip_index: 1 } }),
        s[0] == 0xAD ==> cmd == ({ let r = s[1]; let v = s[2]; Commands::YMZ280BWrite { register: r, value: v, chip_index: 1 } }),
        s[0] == 0xAE ==> cmd == ({ let r = s[1]; let v = s[2]; Commands::YMF262Port0Write { register: r, value: v, chip_index: 1 } }),
        s[0] == 0xAF ==> cmd == ({ let r = s[1]; let v = s[2]; Commands::YMF262Port1Write { register: r, value: v, chip_index: 1 } }),
        s[0] == 0xB0 ==> cmd == ({ let r = s[1]; let v = s[2]; Commands::RF5C68Write { register: r, value: v } }),
        s[0] == 0xB1 ==> cmd == ({ let r = s[1]; let v = s[2]; Commands::RF5C164Write { register: r, value: v } }),
        s[0] == 0xB2 ==> cmd == ({ let r = s[1]; let v = seq_le16(s, 2); Commands::PWMWrite { register: r, value: v } }),
        s[0] == 0xB3 ==> cmd == ({ let r = s[1]; let v = s[2]; Commands::GameBoyDMGWrite { register: r & 0x7F, value: v, chip_index: if r & 0x80 != 0 { 1u8 } else { 0u8 } } }),
        s[0] == 0xB4 ==> cmd == ({ let r = s[1]; let v = s[2]; Commands::NESAPUWrite { register: r & 0x7F, value: v, chip_index: if r & 0x80 != 0 { 1u8 } else { 0u8 } } }),
        s[0] == 0xB5 ==> cmd == ({ let r = s[1]; let v = s[2]; Commands::MultiPCMWrite { register: r & 0x7F, value: v, chip_index: if r & 0x80 != 0 { 1u8 } else { 0u8 } } }),
        s[0] == 0xB6 ==> cmd == ({ let r = s[1]; let v = s[2]; Commands::uPD7759Write { register: r & 0x7F, value: v, chip_index: if r & 0x80 != 0 { 1u8 } else { 0u8 } } }),
        s[0] == 0xB7 && config is None ==> cmd == ({ let r = s[1]; let v = s[2]; Commands::HuC6280Write { register: r & 0x7F, value: v, chip_index: if r & 0x80 != 0 { 1u8 } else { 0u8 } } }),
        s[0] == 0xB7 && config is Some ==> cmd == ({ let r = s[1]; let v = s[2]; Commands::OKIM6258Write { register: r & 0x7F, value: v, chip_index: if r & 0x80 != 0 { 1u8 } else { 0u8 } } }),
        s[0] == 0xB8 ==> cmd == ({ let r = s[1]; let v = s[2]; Commands::OKIM6295Write { register: r & 0x7F, value: v, chip_index: if r & 0x80 != 0 { 1u8 } else { 0u8 } } }),
        s[0] == 0xB9 ==> cmd == ({ let r = s[1]; let v = s[2]; Commands::HuC6280Write { register: r & 0x7F, value: v, chip_index: if r & 0x80 != 0 { 1u8 } else { 0u8 } } }),
        s[0] == 0xBA ==> cmd == ({ let r = s[1]; let v = s[2]; Commands::K053260Write { register: r & 0x7F, value: v, chip_index: if r & 0x80 != 0 { 1u8 } else { 0u8 } } }),
        s[0] == 0xBB ==> cmd == ({ let r = s[1]; let v = s[2]; Commands::PokeyWrite { register: r & 0x7F, value: v, chip_index: if r & 0x80 != 0 { 1u8 } else { 0u8 } } }),
        s[0] == 0xBC ==> cmd == ({ let r = s[1]; let v = s[2]; Commands::WonderSwanWrite { register: r & 0x7F, value: v, chip_index: if r & 0x80 != 0 { 1u8 } else { 0u8 } } }),
        s[0] == 0xBD ==> cmd == ({ let r = s[1]; let v = s[2]; Commands::SAA1099Write { register: r & 0x7F, value: v, chip_index: if r & 0x80 != 0 { 1u8 } else { 0u8 } } }),
        s[0] == 0xBE ==> cmd == ({ let r = s[1]; let v = s[2]; Commands::ES5506Write { register: r & 0x7F, value: v, chip_index: if r & 0x80 != 0 { 1u8 } else { 0u8 } } }),
        s[0] == 0xBF ==> cmd == ({ let r = s[1]; let v = s[2]; Commands::GA20Write { register: r & 0x7F, value: v, chip_index: if r & 0x80 != 0 { 1u8 } else { 0u8 } } }),
        s[0] == 0xC0 ==> cmd == ({ let o = seq_le16(s, 1); let v = s[3]; Commands::SegaPCMWrite { offset: o, value: v } }),
        s[0] == 0xC1 ==> cmd == ({ let o = seq_le16(s, 1); let v = s[3]; Commands::RF5C68WriteOffset { offset: o, value: v } }),
        s[0] == 0xC2 ==> cmd == ({ let o = seq_le16(s, 1); let v = s[3]; Commands::RF5C164WriteOffset { offset: o, value: v } }),
        s[0] == 0xC3 && config is None ==> cmd == ({ let c = s[1]; let o = seq_le16(s, 2); Commands::MultiPCMSetBank { channel: c, offset: o } }),
        s[0] == 0xC4 && config is None ==> cmd == ({ let v = seq_le16(s, 1); let r = s[3]; Commands::QSoundWrite { register: r, value: v } }),
        s[0] == 0xC5 && config is None ==> cmd == ({ let o = seq_le16(s, 1); let v = s[3]; Commands::SCSPWrite { offset: o, value: v } }),
        s[0] == 0xC6 && config is None ==> cmd == ({ let o = seq_le16(s, 1); let v = s[3]; Commands::WonderSwanWrite16 { offset: o, value: v } }),
        s[0] == 0xC7 && config is None ==> cmd == ({ let o = seq_le16(s, 1); let v = s[3]; Commands::VSUWrite { offset: o, value: v } }),
        s[0] == 0xC8 && config is None ==> cmd == ({ let o = seq_le16(s, 1); let v = s[3]; Commands::X1010Write { offset: o, value: v } }),
        s[0] == 0xD0 ==> cmd == ({ let p = s[1]; let r = s[2]; let v = s[3]; Commands::YMF278BWrite { port: p, register: r, value: v } }),
        s[0] == 0xD1 ==> cmd == ({ let p = s[1]; let r = s[2]; let v = s[3]; Commands::YMF271Write { port: p, register: r, value: v } }),
        s[0] == 0xD2 ==> cmd == ({ let p = s[1]; let r = s[2]; let v = s[3]; Commands::SCC1Write { port: p, register: r, value: v } }),
        s[0] == 0xD3 ==> cmd == ({ let r = seq_le16(s, 1); let v = s[3]; Commands::K054539Write { register: r, value: v } }),
        s[0] == 0xD4 ==> cmd == ({ let r = seq_le16(s, 1); let v = s[3]; Commands::C140Write { register: r, value: v } }),
        s[0] == 0xD5 ==> cmd == ({ let r = seq_le16(s, 1); let v = s[3]; Commands::ES5503Write { register: r, value: v } }),
        s[0] == 0xD6 ==> cmd == ({ let r = s[1]; let v = seq_le16(s, 2); Commands::ES5506Write16 { register: r, value: v } }),
        s[0] == 0xE0 ==> cmd == ({ let o = seq_le32(s, 1); Commands::SeekPCM { offset: o } }),
        s[0] == 0xE1 ==> cmd == ({ let r = seq_le16(s, 1); let v = seq_le16(s, 3); Commands::C352Write { register: r, value: v } }),
{
    let t = s.skip(1);
    assert(forall|k: int| 0 <= k < t.len() ==> #[trigger] t[k] == s[k + 1]);
}

} // verus!

//! Writing VGM commands back to bytes.

use crate::buffer::{
    bytes_mut_view, le16, le32, lemma_le16_roundtrip, lemma_le32_roundtrip, out_put_slice, seq_le16, seq_le32,
    u16_le_bytes, u32_le_bytes,
};
use crate::errors::{VgmError, VgmResult};
use crate::text::{decimal_string, decimal_text, joined};
use crate::parser_config::{
    can_track_data_block, fresh_tracker, track_data_block_accepts, ParserConfig, ResourceTracker,
};
use crate::vgm_commands::{
    block_content_ok, block_step, command_parsed, command_step, decode_fixed, fixed_operand_count,
    ram_write_chip_type, rom_dump_chip_type, stream_chip_type, CompressionType, Commands,
    run_commands, run_end, step_len, DataBlockContent, RunEnd, Step, MAX_DATA_BLOCK_SIZE,
};
use bytes::BytesMut;
use vstd::prelude::*;
use vstd::string::StringExecFns;

verus! {

/// The opcode of a chip write: `first` for chip 0, `second` for any other chip.
pub open spec fn chip_opcode(chip_index: u8, first: u8, second: u8) -> u8 {
    if chip_index == 0 {
        first
    } else {
        second
    }
}

/// A register byte that carries the chip in bit 7 (0 for chip 0, 1 otherwise).
pub open spec fn method2_register(register: u8, chip_index: u8) -> u8 {
    if chip_index == 0 {
        register & 0x7F
    } else {
        register | 0x80
    }
}

/// The value of the size field of a data block: its content's bytes.
pub open spec fn block_size_field(d: DataBlockContent) -> nat {
    match d {
        DataBlockContent::UncompressedStream { data, .. } => data@.len(),
        DataBlockContent::CompressedStream { data, .. } => data@.len() + 9,
        DataBlockContent::DecompressionTable { table_data, .. } => table_data@.len() + 6,
        DataBlockContent::ROMDump { data, .. } => data@.len() + 8,
        DataBlockContent::RAMWriteSmall { data, .. } => data@.len() + 2,
        DataBlockContent::RAMWriteLarge { data, .. } => data@.len() + 4,
        DataBlockContent::Unknown { data } => data@.len(),
    }
}

/// The bytes that follow the size field of a data block.
pub open spec fn block_body_bytes(d: DataBlockContent) -> Seq<u8> {
    match d {
        DataBlockContent::UncompressedStream { data, .. } => data@,
        DataBlockContent::CompressedStream { compression, uncompressed_size, data, .. } => {
            match compression {
                CompressionType::BitPacking { bits_decompressed, bits_compressed, sub_type, add_value } => seq![0u8]
                    + u32_le_bytes(uncompressed_size) + seq![bits_decompressed, bits_compressed, sub_type]
                    + u16_le_bytes(add_value) + data@,
                CompressionType::DPCM { bits_decompressed, bits_compressed, start_value } => seq![1u8]
                    + u32_le_bytes(uncompressed_size) + seq![bits_decompressed, bits_compressed, 0u8]
                    + u16_le_bytes(start_value) + data@,
            }
        },
        DataBlockContent::DecompressionTable {
            compression_type,
            sub_type,
            bits_decompressed,
            bits_compressed,
            value_count,
            table_data,
        } => seq![compression_type, sub_type, bits_decompressed, bits_compressed] + u16_le_bytes(
            value_count,
        ) + table_data@,
        DataBlockContent::ROMDump { total_size, start_address, data, .. } => u32_le_bytes(total_size)
            + u32_le_bytes(start_address) + data@,
        DataBlockContent::RAMWriteSmall { start_address, data, .. } => u16_le_bytes(start_address)
            + data@,
        DataBlockContent::RAMWriteLarge { start_address, data, .. } => u32_le_bytes(start_address)
            + data@,
        DataBlockContent::Unknown { data } => data@,
    }
}

/// Whether writing `c` stays within the arithmetic of `to_bytes`: the
/// opcode of a short wait, and the size field of a data block, must fit.
pub open spec fn writable(c: Commands) -> bool {
    match c {
        Commands::WaitNSamplesPlus1 { n } => n <= 0x8F,
        Commands::YM2612Port0Address2AWriteWait { n } => n <= 0x7F,
        Commands::DataBlock { data, .. } => block_size_field(data) <= u32::MAX,
        _ => true,
    }
}

/// Whether `to_bytes` refuses `c`: a PCM RAM write, or a PSG command for a
/// chip other than 0 and 1.
pub open spec fn write_refused(c: Commands) -> bool {
    match c {
        Commands::PCMRAMWrite { .. } => true,
        Commands::GameGearPSGStereo { chip_index, .. } => chip_index > 1,
        Commands::PSGWrite { chip_index, .. } => chip_index > 1,
        _ => false,
    }
}

/// The error with which `to_bytes` refuses `c`.
pub open spec fn write_error(c: Commands, e: VgmError) -> bool {
    match c {
        Commands::PCMRAMWrite { .. } => e matches VgmError::FeatureNotSupported {
            feature,
            version,
            min_version,
        } && feature@ == "PCM RAM Write command serialization"@ && version == 0 && min_version == 0,
        Commands::GameGearPSGStereo { chip_index, .. } => e matches VgmError::InvalidDataFormat {
            field,
            details,
        } && field@ == "chip_index"@ && details@ == "Invalid chip_index "@ + decimal_text(
            chip_index as nat,
        ) + " for GameGearPSGStereo, must be 0 or 1"@,
        Commands::PSGWrite { chip_index, .. } => e matches VgmError::InvalidDataFormat {
            field,
            details,
        } && field@ == "chip_index"@ && details@ == "Invalid chip_index "@ + decimal_text(
            chip_index as nat,
        ) + " for PSGWrite, must be 0 or 1"@,
        _ => false,
    }
}

/// The bytes that `to_bytes` writes for `c` (where it does not refuse it).
pub open spec fn command_bytes(c: Commands) -> Seq<u8> {
    match c {
        Commands::AY8910StereoMask { value } => seq![0x31u8, value],
        Commands::GameGearPSGStereo { value, chip_index } => seq![if chip_index == 0 { 0x4Fu8 } else { 0x3Fu8 }, value],
        Commands::PSGWrite { value, chip_index } => seq![if chip_index == 0 { 0x50u8 } else { 0x30u8 }, value],
        Commands::YM2413Write { register, value, chip_index } => seq![chip_opcode(chip_index, 0x51, 0xA1), register, value],
        Commands::YM2612Port0Write { register, value, chip_index } => seq![chip_opcode(chip_index, 0x52, 0xA2), register, value],
        Commands::YM2612Port1Write { register, value, chip_index } => seq![chip_opcode(chip_index, 0x53, 0xA3), register, value],
        Commands::YM2151Write { register, value, chip_index } => seq![chip_opcode(chip_index, 0x54, 0xA4), register, value],
        Commands::YM2203Write { register, value, chip_index } => seq![chip_opcode(chip_index, 0x55, 0xA5), register, value],
        Commands::YM2608Port0Write { register, value, chip_index } => seq![chip_opcode(chip_index, 0x56, 0xA6), register, value],
        Commands::YM2608Port1Write { register, value, chip_index } => seq![chip_opcode(chip_index, 0x57, 0xA7), register, value],
        Commands::YM2610Port0Write { register, value, chip_index } => seq![chip_opcode(chip_index, 0x58, 0xA8), register, value],
        Commands::YM2610Port1Write { register, value, chip_index } => seq![chip_opcode(chip_index, 0x59, 0xA9), register, value],
        Commands::YM3812Write { register, value, chip_index } => seq![chip_opcode(chip_index, 0x5A, 0xAA), register, value],
        Commands::YM3526Write { register, value, chip_index } => seq![chip_opcode(chip_index, 0x5B, 0xAB), register, value],
        Commands::Y8950Write { register, value, chip_index } => seq![chip_opcode(chip_index, 0x5C, 0xAC), register, value],
        Commands::YMZ280BWrite { register, value, chip_index } => seq![chip_opcode(chip_index, 0x5D, 0xAD), register, value],
        Commands::YMF262Port0Write { register, value, chip_index } => seq![chip_opcode(chip_index, 0x5E, 0xAE), register, value],
        Commands::YMF262Port1Write { register, value, chip_index } => seq![chip_opcode(chip_index, 0x5F, 0xAF), register, value],
        Commands::AY8910Write { register, value, chip_index } => seq![0xA0, method2_register(register, chip_index), value],
        Commands::GameBoyDMGWrite { register, value, chip_index } => seq![0xB3, method2_register(register, chip_index), value],
        Commands::NESAPUWrite { register, value, chip_index } => seq![0xB4, method2_register(register, chip_index), value],
        Commands::MultiPCMWrite { register, value, chip_index } => seq![0xB5, method2_register(register, chip_index), value],
        Commands::uPD7759Write { register, value, chip_index } => seq![0xB6, method2_register(register, chip_index), value],
        Commands::OKIM6258Write { register, value, chip_index } => seq![0xB7, method2_register(register, chip_index), value],
        Commands::OKIM6295Write { register, value, chip_index } => seq![0xB8, method2_register(register, chip_index), value],
        Commands::HuC6280Write { register, value, chip_index } => seq![0xB9, method2_register(register, chip_index), value],
        Commands::K053260Write { register, value, chip_index } => seq![0xBA, method2_register(register, chip_index), value],
        Commands::PokeyWrite { register, value, chip_index } => seq![0xBB, method2_register(register, chip_index), value],
        Commands::WonderSwanWrite { register, value, chip_index } => seq![0xBC, method2_register(register, chip_index), value],
        Commands::SAA1099Write { register, value, chip_index } => seq![0xBD, method2_register(register, chip_index), value],
        Commands::ES5506Write { register, value, chip_index } => seq![0xBE, method2_register(register, chip_index), value],
        Commands::GA20Write { register, value, chip_index } => seq![0xBF, method2_register(register, chip_index), value],
        Commands::WaitNSamples { n } => seq![0x61u8] + u16_le_bytes(n),
        Commands::Wait735Samples => seq![0x62u8],
        Commands::Wait882Samples => seq![0x63u8],
        Commands::EndOfSoundData => seq![0x66u8],
        Commands::DataBlock { block_type, data } => seq![0x67u8, 0x66u8, block_type] + u32_le_bytes(
            block_size_field(data) as u32,
        ) + block_body_bytes(data),
        Commands::PCMRAMWrite { .. } => Seq::empty(),
        Commands::WaitNSamplesPlus1 { n } => seq![(0x70 + n) as u8],
        Commands::YM2612Port0Address2AWriteWait { n } => seq![(0x80 + n) as u8],
        Commands::DACStreamSetupControl { stream_id, chip_type, port, command, chip_index } => seq![
            0x90u8,
            stream_id,
            method2_register(chip_type, chip_index),
            port,
            command,
        ],
        Commands::DACStreamSetData { stream_id, data_bank_id, step_size, step_base } => seq![
            0x91u8,
            stream_id,
            data_bank_id,
            step_size,
            step_base,
        ],
        Commands::DACStreamSetFrequency { stream_id, frequency } => seq![0x92u8, stream_id] + u32_le_bytes(
            frequency,
        ),
        Commands::DACStreamStart { stream_id, data_start_offset, length_mode, data_length } => seq![
            0x93u8,
            stream_id,
        ] + u32_le_bytes(data_start_offset) + seq![length_mode] + u32_le_bytes(data_length),
        Commands::DACStreamStop { stream_id } => seq![0x94u8, stream_id],
        Commands::DACStreamStartFast { stream_id, block_id, flags } => seq![0x95u8, stream_id]
            + u16_le_bytes(block_id) + seq![flags],
        Commands::RF5C68Write { register, value } => seq![0xB0u8, register, value],
        Commands::RF5C164Write { register, value } => seq![0xB1u8, register, value],
        Commands::PWMWrite { register, value } => seq![0xB2u8, register] + u16_le_bytes(value),
        Commands::SegaPCMWrite { offset, value } => seq![0xC0u8] + u16_le_bytes(offset) + seq![value],
        Commands::MultiPCMSetBank { channel, offset } => seq![0xC3u8] + u16_le_bytes(offset) + seq![channel],
        Commands::QSoundWrite { register, value } => seq![0xC4u8, u16_le_bytes(value)[1], u16_le_bytes(value)[0], register],
        Commands::SCSPWrite { offset, value } => seq![0xC5u8, u16_le_bytes(offset)[1], u16_le_bytes(offset)[0], value],
        Commands::WonderSwanWrite16 { offset, value } => seq![0xC6u8, u16_le_bytes(offset)[1], u16_le_bytes(offset)[0], value],
        Commands::VSUWrite { offset, value } => seq![0xC7u8, u16_le_bytes(offset)[1], u16_le_bytes(offset)[0], value],
        Commands::X1010Write { offset, value } => seq![0xC8u8, u16_le_bytes(offset)[1], u16_le_bytes(offset)[0], value],
        Commands::YMF278BWrite { port, register, value } => seq![0xD0u8, port, register, value],
        Commands::YMF271Write { port, register, value } => seq![0xD1u8, port, register, value],
        Commands::SCC1Write { port, register, value } => seq![0xD2u8, port, register, value],
        Commands::K054539Write { register, value } => seq![0xD3u8] + u16_le_bytes(register) + seq![value],
        Commands::C140Write { register, value } => seq![0xD4u8] + u16_le_bytes(register) + seq![value],
        Commands::ES5503Write { register, value } => seq![0xD5u8] + u16_le_bytes(register) + seq![value],
        Commands::ES5506Write16 { register, value } => seq![0xD6u8, register] + u16_le_bytes(value),
        Commands::SeekPCM { offset } => seq![0xE0u8] + u32_le_bytes(offset),
        Commands::C352Write { register, value } => seq![0xE1u8] + u16_le_bytes(register) + u16_le_bytes(value),
        Commands::RF5C68WriteOffset { offset, value } => seq![0xC1u8] + u16_le_bytes(offset) + seq![value],
        Commands::RF5C164WriteOffset { offset, value } => seq![0xC1u8] + u16_le_bytes(offset) + seq![value],
    }
}

/// The register byte that carries the chip in bit 7.
fn method2_byte(register: u8, chip_index: u8) -> (b: u8)
    ensures
        b == method2_register(register, chip_index),
{
    if chip_index == 0 {
        register & 0x7F
    } else {
        register | 0x80
    }
}

/// Appends the little-endian bytes of a `u16`.
fn push_u16_le(v: &mut Vec<u8>, x: u16)
    ensures
        final(v)@ == old(v)@ + u16_le_bytes(x),
{
    v.push((x & 0xff) as u8);
    v.push(((x >> 8u16) & 0xff) as u8);
}

/// Appends the little-endian bytes of a `u32`.
fn push_u32_le(v: &mut Vec<u8>, x: u32)
    ensures
        final(v)@ == old(v)@ + u32_le_bytes(x),
{
    v.push((x & 0xff) as u8);
    v.push(((x >> 8u32) & 0xff) as u8);
    v.push(((x >> 16u32) & 0xff) as u8);
    v.push(((x >> 24u32) & 0xff) as u8);
}


/// Appends a copy of `data`.
fn append_copy(out: &mut Vec<u8>, data: &Vec<u8>)
    ensures
        final(out)@ == old(out)@ + data@,
{
    let ghost start = out@;
    let mut i: usize = 0;
    while i < data.len()
        invariant
            i <= data@.len(),
            out@ == start + data@.take(i as int),
        decreases data@.len() - i,
    {
        out.push(data[i]);
        i += 1;
        assert(out@ =~= start + data@.take(i as int));
    }
    assert(data@.take(i as int) =~= data@);
}

/// The bytes of a data block command.
fn data_block_bytes(block_type: u8, content: &DataBlockContent) -> (v: Vec<u8>)
    requires
        block_size_field(*content) <= u32::MAX,
    ensures
        v@ == seq![0x67u8, 0x66u8, block_type] + u32_le_bytes(block_size_field(*content) as u32)
            + block_body_bytes(*content),
{
    let mut out: Vec<u8> = vec![0x67, 0x66, block_type];
    let data_size: u32 = match content {
        DataBlockContent::UncompressedStream { data, .. } => data.len() as u32,
        DataBlockContent::CompressedStream { data, .. } => data.len() as u32 + 9,
        DataBlockContent::DecompressionTable { table_data, .. } => table_data.len() as u32 + 6,
        DataBlockContent::ROMDump { data, .. } => data.len() as u32 + 8,
        DataBlockContent::RAMWriteSmall { data, .. } => data.len() as u32 + 2,
        DataBlockContent::RAMWriteLarge { data, .. } => data.len() as u32 + 4,
        DataBlockContent::Unknown { data } => data.len() as u32,
    };
    push_u32_le(&mut out, data_size);
    let ghost head = out@;
    match content {
        DataBlockContent::UncompressedStream { data, .. } => {
            append_copy(&mut out, data);
        },
        DataBlockContent::CompressedStream { compression, uncompressed_size, data, .. } => {
            match compression {
                CompressionType::BitPacking { bits_decompressed, bits_compressed, sub_type, add_value } => {
                    out.push(0x00);
                    push_u32_le(&mut out, *uncompressed_size);
                    out.push(*bits_decompressed);
                    out.push(*bits_compressed);
                    out.push(*sub_type);
                    push_u16_le(&mut out, *add_value);
                },
                CompressionType::DPCM { bits_decompressed, bits_compressed, start_value } => {
                    out.push(0x01);
                    push_u32_le(&mut out, *uncompressed_size);
                    out.push(*bits_decompressed);
                    out.push(*bits_compressed);
                    out.push(0x00);
                    push_u16_le(&mut out, *start_value);
                },
            }
            append_copy(&mut out, data);
        },
        DataBlockContent::DecompressionTable {
            compression_type,
            sub_type,
            bits_decompressed,
            bits_compressed,
            value_count,
            table_data,
        } => {
            out.push(*compression_type);
            out.push(*sub_type);
            out.push(*bits_decompressed);
            out.push(*bits_compressed);
            push_u16_le(&mut out, *value_count);
            append_copy(&mut out, table_data);
        },
        DataBlockContent::ROMDump { total_size, start_address, data, .. } => {
            push_u32_le(&mut out, *total_size);
            push_u32_le(&mut out, *start_address);
            append_copy(&mut out, data);
        },
        DataBlockContent::RAMWriteSmall { start_address, data, .. } => {
            push_u16_le(&mut out, *start_address);
            append_copy(&mut out, data);
        },
        DataBlockContent::RAMWriteLarge { start_address, data, .. } => {
            push_u32_le(&mut out, *start_address);
            append_copy(&mut out, data);
        },
        DataBlockContent::Unknown { data } => {
            append_copy(&mut out, data);
        },
    }
    assert(out@ =~= head + block_body_bytes(*content));
    out
}

/// The error for a PSG command addressed to a chip other than 0 and 1;
/// `tail` names the command.
fn chip_index_error(chip_index: u8, tail: &str) -> (e: VgmError)
    ensures
        e matches VgmError::InvalidDataFormat { field, details } && field@ == "chip_index"@
            && details@ == "Invalid chip_index "@ + decimal_text(chip_index as nat) + tail@,
{
    let number = decimal_string(chip_index as u64);
    let head = joined("Invalid chip_index ", number.as_str());
    VgmError::InvalidDataFormat {
        field: String::from_str("chip_index"),
        details: joined(head.as_str(), tail),
    }
}

impl Commands {
    /// The bytes of the command. A PCM RAM write cannot be written, and a
    /// PSG command addresses chip 0 or 1 only.
    pub fn to_bytes(self) -> (r: VgmResult<Vec<u8>>)
        requires
            writable(self),
        ensures
            r is Ok <==> !write_refused(self),
            r is Ok ==> r->Ok_0@ == command_bytes(self),
            r is Err ==> write_error(self, r->Err_0),
    {
        self.encode()
    }

    /// The bytes of the command, as `to_bytes` gives them, from a borrowed command.
    fn encode(&self) -> (r: VgmResult<Vec<u8>>)
        requires
            writable(*self),
        ensures
            r is Ok <==> !write_refused(*self),
            r is Ok ==> r->Ok_0@ == command_bytes(*self),
            r is Err ==> write_error(*self, r->Err_0),
    {
        let bytes = match *self {
            Commands::AY8910StereoMask { value } => vec![0x31, value],
            Commands::GameGearPSGStereo { value, chip_index } => {
                if chip_index == 0 {
                    vec![0x4f, value]
                } else if chip_index == 1 {
                    vec![0x3f, value]
                } else {
                    let e = chip_index_error(chip_index, " for GameGearPSGStereo, must be 0 or 1");
                    return Err(e);
                }
            },
            Commands::PSGWrite { value, chip_index } => {
                if chip_index == 0 {
                    vec![0x50, value]
                } else if chip_index == 1 {
                    vec![0x30, value]
                } else {
                    let e = chip_index_error(chip_index, " for PSGWrite, must be 0 or 1");
                    return Err(e);
                }
            },
            Commands::YM2413Write { register, value, chip_index } => {
                let opcode: u8 = if chip_index == 0 { 0x51 } else { 0xA1 };
                vec![opcode, register, value]
            },
            Commands::YM2612Port0Write { register, value, chip_index } => {
                let opcode: u8 = if chip_index == 0 { 0x52 } else { 0xA2 };
                vec![opcode, register, value]
            },
            Commands::YM2612Port1Write { register, value, chip_index } => {
                let opcode: u8 = if chip_index == 0 { 0x53 } else { 0xA3 };
                vec![opcode, register, value]
            },
            Commands::YM2151Write { register, value, chip_index } => {
                let opcode: u8 = if chip_index == 0 { 0x54 } else { 0xA4 };
                vec![opcode, register, value]
            },
            Commands::YM2203Write { register, value, chip_index } => {
                let opcode: u8 = if chip_index == 0 { 0x55 } else { 0xA5 };
                vec![opcode, register, value]
            },
            Commands::YM2608Port0Write { register, value, chip_index } => {
                let opcode: u8 = if chip_index == 0 { 0x56 } else { 0xA6 };
                vec![opcode, register, value]
            },
            Commands::YM2608Port1Write { register, value, chip_index } => {
                let opcode: u8 = if chip_index == 0 { 0x57 } else { 0xA7 };
                vec![opcode, register, value]
            },
            Commands::YM2610Port0Write { register, value, chip_index } => {
                let opcode: u8 = if chip_index == 0 { 0x58 } else { 0xA8 };
                vec![opcode, register, value]
            },
            Commands::YM2610Port1Write { register, value, chip_index } => {
                let opcode: u8 = if chip_index == 0 { 0x59 } else { 0xA9 };
                vec![opcode, register, value]
            },
            Commands::YM3812Write { register, value, chip_index } => {
                let opcode: u8 = if chip_index == 0 { 0x5A } else { 0xAA };
                vec![opcode, register, value]
            },
            Commands::YM3526Write { register, value, chip_index } => {
                let opcode: u8 = if chip_index == 0 { 0x5B } else { 0xAB };
                vec![opcode, register, value]
            },
            Commands::Y8950Write { register, value, chip_index } => {
                let opcode: u8 = if chip_index == 0 { 0x5C } else { 0xAC };
                vec![opcode, register, value]
            },
            Commands::YMZ280BWrite { register, value, chip_index } => {
                let opcode: u8 = if chip_index == 0 { 0x5D } else { 0xAD };
                vec![opcode, register, value]
            },
            Commands::YMF262Port0Write { register, value, chip_index } => {
                let opcode: u8 = if chip_index == 0 { 0x5E } else { 0xAE };
                vec![opcode, register, value]
            },
            Commands::YMF262Port1Write { register, value, chip_index } => {
                let opcode: u8 = if chip_index == 0 { 0x5F } else { 0xAF };
                vec![opcode, register, value]
            },
            Commands::AY8910Write { register, value, chip_index } => vec![0xA0, method2_byte(register, chip_index), value],
            Commands::GameBoyDMGWrite { register, value, chip_index } => vec![0xB3, method2_byte(register, chip_index), value],
            Commands::NESAPUWrite { register, value, chip_index } => vec![0xB4, method2_byte(register, chip_index), value],
            Commands::MultiPCMWrite { register, value, chip_index } => vec![0xB5, method2_byte(register, chip_index), value],
            Commands::uPD7759Write { register, value, chip_index } => vec![0xB6, method2_byte(register, chip_index), value],
            Commands::OKIM6258Write { register, value, chip_index } => vec![0xB7, method2_byte(register, chip_index), value],
            Commands::OKIM6295Write { register, value, chip_index } => vec![0xB8, method2_byte(register, chip_index), value],
            Commands::HuC6280Write { register, value, chip_index } => vec![0xB9, method2_byte(register, chip_index), value],
            Commands::K053260Write { register, value, chip_index } => vec![0xBA, method2_byte(register, chip_index), value],
            Commands::PokeyWrite { register, value, chip_index } => vec![0xBB, method2_byte(register, chip_index), value],
            Commands::WonderSwanWrite { register, value, chip_index } => vec![0xBC, method2_byte(register, chip_index), value],
            Commands::SAA1099Write { register, value, chip_index } => vec![0xBD, method2_byte(register, chip_index), value],
            Commands::ES5506Write { register, value, chip_index } => vec![0xBE, method2_byte(register, chip_index), value],
            Commands::GA20Write { register, value, chip_index } => vec![0xBF, method2_byte(register, chip_index), value],
            Commands::WaitNSamples { n } => {
                let mut v: Vec<u8> = vec![0x61];
                push_u16_le(&mut v, n);
                v
            },
            Commands::Wait735Samples => vec![0x62],
            Commands::Wait882Samples => vec![0x63],
            Commands::EndOfSoundData => vec![0x66],
            Commands::DataBlock { block_type, ref data } => data_block_bytes(block_type, data),
            Commands::PCMRAMWrite { .. } => {
                return Err(
                    VgmError::FeatureNotSupported {
                        feature: String::from_str("PCM RAM Write command serialization"),
                        version: 0,
                        min_version: 0,
                    },
                );
            },
            Commands::WaitNSamplesPlus1 { n } => vec![0x70 + n],
            Commands::YM2612Port0Address2AWriteWait { n } => vec![0x80 + n],
            Commands::DACStreamSetupControl { stream_id, chip_type, port, command, chip_index } => vec![
                0x90,
                stream_id,
                method2_byte(chip_type, chip_index),
                port,
                command,
            ],
            Commands::DACStreamSetData { stream_id, data_bank_id, step_size, step_base } => vec![
                0x91,
                stream_id,
                data_bank_id,
                step_size,
                step_base,
            ],
            Commands::DACStreamSetFrequency { stream_id, frequency } => {
                let mut v: Vec<u8> = vec![0x92, stream_id];
                push_u32_le(&mut v, frequency);
                v
            },
            Commands::DACStreamStart { stream_id, data_start_offset, length_mode, data_length } => {
                let mut v: Vec<u8> = vec![0x93, stream_id];
                push_u32_le(&mut v, data_start_offset);
                v.push(length_mode);
                push_u32_le(&mut v, data_length);
                v
            },
            Commands::DACStreamStop { stream_id } => vec![0x94, stream_id],
            Commands::DACStreamStartFast { stream_id, block_id, flags } => {
                let mut v: Vec<u8> = vec![0x95, stream_id];
                push_u16_le(&mut v, block_id);
                v.push(flags);
                v
            },
            Commands::RF5C68Write { register, value } => vec![0xB0, register, value],
            Commands::RF5C164Write { register, value } => vec![0xB1, register, value],
            Commands::PWMWrite { register, value } => {
                let mut v: Vec<u8> = vec![0xB2, register];
                push_u16_le(&mut v, value);
                v
            },
            Commands::SegaPCMWrite { offset, value } => {
                let mut v: Vec<u8> = vec![0xC0];
                push_u16_le(&mut v, offset);
                v.push(value);
                v
            },
            Commands::MultiPCMSetBank { channel, offset } => {
                let mut v: Vec<u8> = vec![0xC3];
                push_u16_le(&mut v, offset);
                v.push(channel);
                v
            },
            Commands::QSoundWrite { register, value } => vec![
                0xC4,
                ((value >> 8u16) & 0xff) as u8,
                (value & 0xff) as u8,
                register,
            ],
            Commands::SCSPWrite { offset, value } => vec![
                0xC5,
                ((offset >> 8u16) & 0xff) as u8,
                (offset & 0xff) as u8,
                value,
            ],
            Commands::WonderSwanWrite16 { offset, value } => vec![
                0xC6,
                ((offset >> 8u16) & 0xff) as u8,
                (offset & 0xff) as u8,
                value,
            ],
            Commands::VSUWrite { offset, value } => vec![
                0xC7,
                ((offset >> 8u16) & 0xff) as u8,
                (offset & 0xff) as u8,
                value,
            ],
            Commands::X1010Write { offset, value } => vec![
                0xC8,
                ((offset >> 8u16) & 0xff) as u8,
                (offset & 0xff) as u8,
                value,
            ],
            Commands::YMF278BWrite { port, register, value } => vec![0xD0, port, register, value],
            Commands::YMF271Write { port, register, value } => vec![0xD1, port, register, value],
            Commands::SCC1Write { port, register, value } => vec![0xD2, port, register, value],
            Commands::K054539Write { register, value } => {
                let mut v: Vec<u8> = vec![0xD3];
                push_u16_le(&mut v, register);
                v.push(value);
                v
            },
            Commands::C140Write { register, value } => {
                let mut v: Vec<u8> = vec![0xD4];
                push_u16_le(&mut v, register);
                v.push(value);
                v
            },
            Commands::ES5503Write { register, value } => {
                let mut v: Vec<u8> = vec![0xD5];
                push_u16_le(&mut v, register);
                v.push(value);
                v
            },
            Commands::ES5506Write16 { register, value } => {
                let mut v: Vec<u8> = vec![0xD6, register];
                push_u16_le(&mut v, value);
                v
            },
            Commands::SeekPCM { offset } => {
                let mut v: Vec<u8> = vec![0xE0];
                push_u32_le(&mut v, offset);
                v
            },
            Commands::C352Write { register, value } => {
                let mut v: Vec<u8> = vec![0xE1];
                push_u16_le(&mut v, register);
                push_u16_le(&mut v, value);
                v
            },
            Commands::RF5C68WriteOffset { offset, value } => {
                let mut v: Vec<u8> = vec![0xC1];
                push_u16_le(&mut v, offset);
                v.push(value);
                v
            },
            Commands::RF5C164WriteOffset { offset, value } => {
                let mut v: Vec<u8> = vec![0xC1];
                push_u16_le(&mut v, offset);
                v.push(value);
                v
            },
        };
        Ok(bytes)
    }
}


/// The bytes of the commands, one after the other.
pub open spec fn commands_bytes(cs: Seq<Commands>) -> Seq<u8>
    decreases cs.len(),
{
    if cs.len() == 0 {
        Seq::empty()
    } else {
        commands_bytes(cs.drop_last()) + command_bytes(cs.last())
    }
}

/// Appends the bytes of each command to `buffer`, in order; the first
/// command that cannot be written stops it with its error, after the
/// commands before it were appended.
pub fn write_commands(buffer: &mut BytesMut, commands: &Vec<Commands>) -> (r: VgmResult<()>)
    requires
        forall|i: int| 0 <= i < commands@.len() ==> writable(#[trigger] commands@[i]),
    ensures
        r is Ok <==> forall|i: int| 0 <= i < commands@.len() ==> !write_refused(#[trigger] commands@[i]),
        r is Ok ==> bytes_mut_view(*final(buffer)) == bytes_mut_view(*old(buffer)) + commands_bytes(
            commands@,
        ),
        r is Err ==> exists|j: int|
            0 <= j < commands@.len() && write_refused(#[trigger] commands@[j]) && (forall|i: int|
                0 <= i < j ==> !write_refused(#[trigger] commands@[i])) && write_error(
                commands@[j],
                r->Err_0,
            ) && bytes_mut_view(*final(buffer)) == bytes_mut_view(*old(buffer)) + commands_bytes(
                commands@.take(j),
            ),
{
    let ghost start = bytes_mut_view(*buffer);
    let mut i: usize = 0;
    while i < commands.len()
        invariant
            start == bytes_mut_view(*old(buffer)),
            i <= commands@.len(),
            forall|k: int| 0 <= k < commands@.len() ==> writable(#[trigger] commands@[k]),
            forall|k: int| 0 <= k < i ==> !write_refused(#[trigger] commands@[k]),
            bytes_mut_view(*buffer) == start + commands_bytes(commands@.take(i as int)),
        decreases commands@.len() - i,
    {
        let cmd_bytes = match commands[i].encode() {
            Ok(b) => b,
            Err(e) => {
                assert(write_refused(commands@[i as int]));
                return Err(e);
            },
        };
        out_put_slice(buffer, cmd_bytes.as_slice());
        proof {
            assert(commands@.take(i + 1).drop_last() =~= commands@.take(i as int));
            assert(commands@.take(i + 1).last() == commands@[i as int]);
        }
        i += 1;
    }
    assert(commands@.take(i as int) =~= commands@);
    Ok(())
}


/// Whether a data block's content has the shape that its block type calls for.
pub open spec fn block_matches_type(block_type: u8, d: DataBlockContent) -> bool {
    match d {
        DataBlockContent::UncompressedStream { chip_type, .. } => block_type <= 0x3F && chip_type
            == stream_chip_type(block_type),
        DataBlockContent::CompressedStream { chip_type, .. } => 0x40 <= block_type <= 0x7E
            && chip_type == stream_chip_type(block_type),
        DataBlockContent::DecompressionTable { .. } => block_type == 0x7F,
        DataBlockContent::ROMDump { chip_type, .. } => 0x80 <= block_type <= 0xBF && chip_type
            == rom_dump_chip_type(block_type),
        DataBlockContent::RAMWriteSmall { chip_type, .. } => 0xC0 <= block_type <= 0xDF && chip_type
            == ram_write_chip_type(block_type),
        DataBlockContent::RAMWriteLarge { chip_type, .. } => 0xE0 <= block_type && chip_type
            == ram_write_chip_type(block_type),
        DataBlockContent::Unknown { .. } => false,
    }
}

/// Whether `c` reads back as itself once written, with the opcode table
/// selected by `legacy`: chip indices are 0 or 1, registers that carry the
/// chip in bit 7 are below 0x80, short waits count at most 16, and a data
/// block's content matches its type. PCM RAM writes are not written; the
/// commands whose operands are written in another order than they are read
/// (QSound, SCSP, WonderSwan 16-bit, VSU, X1-010, MultiPCM bank), and the
/// RF5C164 offset write (written with the RF5C68 opcode), do not read back;
/// nor, with the legacy table, does an OKIM6258 write.
pub open spec fn round_trips(c: Commands, legacy: bool) -> bool {
    match c {
        Commands::GameGearPSGStereo { chip_index, .. } => chip_index <= 1,
        Commands::PSGWrite { chip_index, .. } => chip_index <= 1,
        Commands::YM2413Write { chip_index, .. } => chip_index <= 1,
        Commands::YM2612Port0Write { chip_index, .. } => chip_index <= 1,
        Commands::YM2612Port1Write { chip_index, .. } => chip_index <= 1,
        Commands::YM2151Write { chip_index, .. } => chip_index <= 1,
        Commands::YM2203Write { chip_index, .. } => chip_index <= 1,
        Commands::YM2608Port0Write { chip_index, .. } => chip_index <= 1,
        Commands::YM2608Port1Write { chip_index, .. } => chip_index <= 1,
        Commands::YM2610Port0Write { chip_index, .. } => chip_index <= 1,
        Commands::YM2610Port1Write { chip_index, .. } => chip_index <= 1,
        Commands::YM3812Write { chip_index, .. } => chip_index <= 1,
        Commands::YM3526Write { chip_index, .. } => chip_index <= 1,
        Commands::Y8950Write { chip_index, .. } => chip_index <= 1,
        Commands::YMZ280BWrite { chip_index, .. } => chip_index <= 1,
        Commands::YMF262Port0Write { chip_index, .. } => chip_index <= 1,
        Commands::YMF262Port1Write { chip_index, .. } => chip_index <= 1,
        Commands::DataBlock { block_type, data } => block_matches_type(block_type, data),
        Commands::PCMRAMWrite { .. } => false,
        Commands::WaitNSamplesPlus1 { n } => n <= 15,
        Commands::YM2612Port0Address2AWriteWait { n } => n <= 15,
        Commands::DACStreamSetupControl { chip_type, chip_index, .. } => chip_type <= 0x7F && chip_index
            <= 1,
        Commands::AY8910Write { register, chip_index, .. } => register <= 0x7F && chip_index <= 1,
        Commands::GameBoyDMGWrite { register, chip_index, .. } => register <= 0x7F && chip_index <= 1,
        Commands::NESAPUWrite { register, chip_index, .. } => register <= 0x7F && chip_index <= 1,
        Commands::MultiPCMWrite { register, chip_index, .. } => register <= 0x7F && chip_index <= 1,
        Commands::uPD7759Write { register, chip_index, .. } => register <= 0x7F && chip_index <= 1,
        Commands::OKIM6258Write { register, chip_index, .. } => !legacy && register <= 0x7F && chip_index
            <= 1,
        Commands::OKIM6295Write { register, chip_index, .. } => register <= 0x7F && chip_index <= 1,
        Commands::HuC6280Write { register, chip_index, .. } => register <= 0x7F && chip_index <= 1,
        Commands::K053260Write { register, chip_index, .. } => register <= 0x7F && chip_index <= 1,
        Commands::PokeyWrite { register, chip_index, .. } => register <= 0x7F && chip_index <= 1,
        Commands::WonderSwanWrite { register, chip_index, .. } => register <= 0x7F && chip_index <= 1,
        Commands::SAA1099Write { register, chip_index, .. } => register <= 0x7F && chip_index <= 1,
        Commands::ES5506Write { register, chip_index, .. } => register <= 0x7F && chip_index <= 1,
        Commands::GA20Write { register, chip_index, .. } => register <= 0x7F && chip_index <= 1,
        Commands::MultiPCMSetBank { .. } => false,
        Commands::QSoundWrite { .. } => false,
        Commands::SCSPWrite { .. } => false,
        Commands::WonderSwanWrite16 { .. } => false,
        Commands::VSUWrite { .. } => false,
        Commands::X1010Write { .. } => false,
        Commands::RF5C164WriteOffset { .. } => false,
        _ => true,
    }
}

/// Whether a command is within the limits of the parser that reads it back
/// (with `config`, and tracker `t`): only a data block's size is limited.
pub open spec fn within_read_limits(c: Commands, config: Option<ParserConfig>, t: ResourceTracker) -> bool {
    match c {
        Commands::DataBlock { data, .. } => {
            let size = block_size_field(data);
            match config {
                None => size <= MAX_DATA_BLOCK_SIZE,
                Some(cfg) => size <= u32::MAX && can_track_data_block(t, cfg, size as u32)
                    && track_data_block_accepts(t, cfg, size as u32),
            }
        },
        _ => true,
    }
}

proof fn lemma_method2(register: u8, chip_index: u8)
    requires
        register <= 0x7F,
        chip_index <= 1,
    ensures
        method2_register(register, chip_index) & 0x7F == register,
        (method2_register(register, chip_index) & 0x80 != 0) == (chip_index == 1),
{
    assert(register <= 0x7F ==> (register & 0x7F == register && register & 0x80 == 0))
        by (bit_vector);
    assert(register <= 0x7F ==> ((register | 0x80) & 0x7F == register && (register | 0x80) & 0x80
        != 0)) by (bit_vector);
}

pub(crate) proof fn lemma_u16_bytes(v: u16, s: Seq<u8>, i: int)
    requires
        0 <= i,
        i + 2 <= s.len(),
        s[i] == u16_le_bytes(v)[0],
        s[i + 1] == u16_le_bytes(v)[1],
    ensures
        seq_le16(s, i) == v,
{
    lemma_le16_roundtrip(v);
}

pub(crate) proof fn lemma_u32_bytes(v: u32, s: Seq<u8>, i: int)
    requires
        0 <= i,
        i + 4 <= s.len(),
        s[i] == u32_le_bytes(v)[0],
        s[i + 1] == u32_le_bytes(v)[1],
        s[i + 2] == u32_le_bytes(v)[2],
        s[i + 3] == u32_le_bytes(v)[3],
    ensures
        seq_le32(s, i) == v,
{
    lemma_le32_roundtrip(v);
}


/// A fixed-size command that reads back as itself is read back from its
/// bytes, whatever follows them.
proof fn lemma_fixed_round_trip(c: Commands, rest: Seq<u8>, legacy: bool)
    requires
        round_trips(c, legacy),
        writable(c),
        !(c is DataBlock),
    ensures
        ({
            let s = command_bytes(c) + rest;
            &&& command_bytes(c).len() >= 1
            &&& s[0] == command_bytes(c)[0]
            &&& fixed_operand_count(s[0], legacy) == command_bytes(c).len() - 1
            &&& decode_fixed(s[0], s.skip(1), legacy) == c
        }),
{
    let s = command_bytes(c) + rest;
    assert(s.skip(1) =~= command_bytes(c).skip(1) + rest);
    match c {
        Commands::AY8910Write { register, chip_index, .. } => lemma_method2(register, chip_index),
        Commands::GameBoyDMGWrite { register, chip_index, .. } => lemma_method2(register, chip_index),
        Commands::NESAPUWrite { register, chip_index, .. } => lemma_method2(register, chip_index),
        Commands::MultiPCMWrite { register, chip_index, .. } => lemma_method2(register, chip_index),
        Commands::uPD7759Write { register, chip_index, .. } => lemma_method2(register, chip_index),
        Commands::OKIM6258Write { register, chip_index, .. } => lemma_method2(register, chip_index),
        Commands::OKIM6295Write { register, chip_index, .. } => lemma_method2(register, chip_index),
        Commands::HuC6280Write { register, chip_index, .. } => lemma_method2(register, chip_index),
        Commands::K053260Write { register, chip_index, .. } => lemma_method2(register, chip_index),
        Commands::PokeyWrite { register, chip_index, .. } => lemma_method2(register, chip_index),
        Commands::WonderSwanWrite { register, chip_index, .. } => lemma_method2(register, chip_index),
        Commands::SAA1099Write { register, chip_index, .. } => lemma_method2(register, chip_index),
        Commands::ES5506Write { register, chip_index, .. } => lemma_method2(register, chip_index),
        Commands::GA20Write { register, chip_index, .. } => lemma_method2(register, chip_index),
        Commands::DACStreamSetupControl { chip_type, chip_index, .. } => lemma_method2(chip_type, chip_index),
        Commands::WaitNSamples { n } => lemma_u16_bytes(n, s.skip(1), 0),
        Commands::DACStreamSetFrequency { frequency, .. } => lemma_u32_bytes(frequency, s.skip(1), 1),
        Commands::DACStreamStart { data_start_offset, data_length, .. } => {
            lemma_u32_bytes(data_start_offset, s.skip(1), 1);
            lemma_u32_bytes(data_length, s.skip(1), 6);
        },
        Commands::DACStreamStartFast { block_id, .. } => lemma_u16_bytes(block_id, s.skip(1), 1),
        Commands::PWMWrite { value, .. } => lemma_u16_bytes(value, s.skip(1), 1),
        Commands::SegaPCMWrite { offset, .. } => lemma_u16_bytes(offset, s.skip(1), 0),
        Commands::RF5C68WriteOffset { offset, .. } => lemma_u16_bytes(offset, s.skip(1), 0),
        Commands::K054539Write { register, .. } => lemma_u16_bytes(register, s.skip(1), 0),
        Commands::C140Write { register, .. } => lemma_u16_bytes(register, s.skip(1), 0),
        Commands::ES5503Write { register, .. } => lemma_u16_bytes(register, s.skip(1), 0),
        Commands::ES5506Write16 { value, .. } => lemma_u16_bytes(value, s.skip(1), 1),
        Commands::SeekPCM { offset } => lemma_u32_bytes(offset, s.skip(1), 0),
        Commands::C352Write { register, value } => {
            lemma_u16_bytes(register, s.skip(1), 0);
            lemma_u16_bytes(value, s.skip(1), 2);
        },
        _ => {},
    }
}


/// The content of a data block whose shape matches its type is read back
/// from its bytes, whatever follows them.
proof fn lemma_block_round_trip(block_type: u8, d: DataBlockContent, rest: Seq<u8>)
    requires
        block_matches_type(block_type, d),
        block_size_field(d) <= u32::MAX,
    ensures
        ({
            let s = block_body_bytes(d) + rest;
            let size = block_size_field(d) as u32;
            &&& block_step(block_type, size, s) == Step::Done { len: block_body_bytes(d).len() }
            &&& block_content_ok(block_type, size, s, d)
        }),
{
    let b = block_body_bytes(d);
    let s = b + rest;
    match d {
        DataBlockContent::UncompressedStream { data, .. } => {
            assert(s.take(data@.len() as int) =~= data@);
        },
        DataBlockContent::CompressedStream { compression, uncompressed_size, data, .. } => {
            lemma_u32_bytes(uncompressed_size, s, 1);
            match compression {
                CompressionType::BitPacking { add_value, .. } => {
                    lemma_u16_bytes(add_value, s, 8);
                },
                CompressionType::DPCM { start_value, .. } => {
                    lemma_u16_bytes(start_value, s, 8);
                },
            }
            assert(s.subrange(10, 10 + data@.len() as int) =~= data@);
        },
        DataBlockContent::DecompressionTable { value_count, table_data, .. } => {
            lemma_u16_bytes(value_count, s, 4);
            assert(s.subrange(6, 6 + table_data@.len() as int) =~= table_data@);
        },
        DataBlockContent::ROMDump { total_size, start_address, data, .. } => {
            lemma_u32_bytes(total_size, s, 0);
            lemma_u32_bytes(start_address, s, 4);
            assert(s.subrange(8, 8 + data@.len() as int) =~= data@);
        },
        DataBlockContent::RAMWriteSmall { start_address, data, .. } => {
            lemma_u16_bytes(start_address, s, 0);
            assert(s.subrange(2, 2 + data@.len() as int) =~= data@);
        },
        DataBlockContent::RAMWriteLarge { start_address, data, .. } => {
            lemma_u32_bytes(start_address, s, 0);
            assert(s.subrange(4, 4 + data@.len() as int) =~= data@);
        },
        DataBlockContent::Unknown { .. } => {},
    }
}

/// Writing a command and reading it back gives the command: reading the
/// bytes that `to_bytes` gives for `c`, followed by anything, reads exactly
/// those bytes and yields `c` (with the legacy table when `config` is
/// `None`, otherwise within the limits of `config` and tracker `t`).
pub proof fn lemma_command_round_trip(c: Commands, rest: Seq<u8>, config: Option<ParserConfig>, t: ResourceTracker)
    requires
        round_trips(c, config is None),
        writable(c),
        within_read_limits(c, config, t),
    ensures
        command_step(command_bytes(c) + rest, config, t) == (Step::Done { len: command_bytes(c).len() }),
        command_parsed(command_bytes(c) + rest, config, c),
{
    let s = command_bytes(c) + rest;
    match c {
        Commands::DataBlock { block_type, data } => {
            let size = block_size_field(data) as u32;
            let b = seq![0x67u8, 0x66u8, block_type] + u32_le_bytes(size);
            lemma_u32_bytes(size, s, 3);
            assert(s.skip(7) =~= block_body_bytes(data) + rest);
            lemma_block_round_trip(block_type, data, rest);
        },
        _ => {
            lemma_fixed_round_trip(c, rest, config is None);
        },
    }
}


/// The bytes of commands are those of the first, then those of the rest.
proof fn lemma_commands_bytes_first(cs: Seq<Commands>)
    requires
        cs.len() >= 1,
    ensures
        commands_bytes(cs) == command_bytes(cs[0]) + commands_bytes(cs.drop_first()),
    decreases cs.len(),
{
    if cs.len() == 1 {
        assert(cs.drop_last() =~= Seq::<Commands>::empty());
        assert(cs.drop_first() =~= Seq::<Commands>::empty());
        assert(commands_bytes(cs) =~= command_bytes(cs[0]) + commands_bytes(cs.drop_first()));
    } else {
        lemma_commands_bytes_first(cs.drop_last());
        assert(cs.drop_last().drop_first() =~= cs.drop_first().drop_last());
        assert(cs.drop_first().last() == cs.last());
        assert(commands_bytes(cs) =~= command_bytes(cs[0]) + commands_bytes(cs.drop_first()));
    }
}

/// Whether commands read back as themselves with the plain parser, the
/// last one, and only it, being the end-of-data command.
pub open spec fn writable_stream(cs: Seq<Commands>) -> bool {
    &&& cs.len() >= 1
    &&& forall|i: int|
        0 <= i < cs.len() ==> round_trips(#[trigger] cs[i], true) && writable(cs[i])
            && within_read_limits(cs[i], None, fresh_tracker())
    &&& forall|i: int| 0 <= i < cs.len() - 1 ==> #[trigger] cs[i] != Commands::EndOfSoundData
    &&& cs.last() == Commands::EndOfSoundData
}

/// Writing commands and reading them back gives the commands: reading the
/// bytes that `write_commands` appends for a stream that ends with the
/// end-of-data command, followed by anything, reads exactly those bytes and
/// yields the same commands.
pub proof fn lemma_stream_round_trip(cs: Seq<Commands>, rest: Seq<u8>)
    requires
        writable_stream(cs),
    ensures
        run_end(commands_bytes(cs) + rest, None, fresh_tracker()) == (RunEnd::Ended {
            len: commands_bytes(cs).len(),
            count: cs.len(),
            tracker: fresh_tracker(),
        }),
        run_commands(commands_bytes(cs) + rest, None, fresh_tracker(), cs),
    decreases cs.len(),
{
    lemma_commands_bytes_first(cs);
    let c = cs[0];
    let tail = commands_bytes(cs.drop_first()) + rest;
    let s = commands_bytes(cs) + rest;
    assert(s =~= command_bytes(c) + tail);
    assert(round_trips(cs[0], true) && writable(cs[0]) && within_read_limits(cs[0], None, fresh_tracker()));
    lemma_command_round_trip(c, tail, None, fresh_tracker());
    let len = command_bytes(c).len();
    if !(c is DataBlock) {
        lemma_fixed_round_trip(c, tail, true);
    }
    assert(s.skip(len as int) =~= tail);
    if cs.len() == 1 {
        assert(s[0] == 0x66);
        assert(cs.drop_first() =~= Seq::<Commands>::empty());
        assert(run_commands(s.skip(len as int), None, fresh_tracker(), cs.drop_first()));
    } else {
        assert(c != Commands::EndOfSoundData);
        assert(s[0] != 0x66);
        let rest_cs = cs.drop_first();
        assert forall|i: int| 0 <= i < rest_cs.len() implies round_trips(#[trigger] rest_cs[i], true)
            && writable(rest_cs[i]) && within_read_limits(rest_cs[i], None, fresh_tracker()) by {
            assert(rest_cs[i] == cs[i + 1]);
        }
        assert forall|i: int| 0 <= i < rest_cs.len() - 1 implies #[trigger] rest_cs[i]
            != Commands::EndOfSoundData by {
            assert(rest_cs[i] == cs[i + 1]);
        }
        lemma_stream_round_trip(rest_cs, rest);
        assert(run_commands(s.skip(len as int), None, fresh_tracker(), cs.drop_first()));
    }
    assert(run_commands(s, None, fresh_tracker(), cs));
}


/// Whether the writer lays out a command of opcode `op` as its reader reads
/// it. It does not for 0xB7 in the legacy table (read as a HuC6280 write,
/// which is written as 0xB9), for 0xC2 (written as 0xC1), and for 0xC3 to
/// 0xC8, whose offsets are written in another byte order than they are read.
pub open spec fn rewrites_same(op: u8, legacy: bool) -> bool {
    !((op == 0xB7 && legacy) || (0xC2 <= op <= 0xC8))
}

/// The bytes of the little-endian `u16` read from two bytes are those bytes.
proof fn lemma_le16_bytes(a: u8, b: u8)
    ensures
        u16_le_bytes(le16(a, b)) == seq![a, b],
{
    let v = le16(a, b);
    assert(((((a as u16) | ((b as u16) << 8u16)) as u16) & 0xff) as u8 == a && (((((a as u16) | ((b as u16)
        << 8u16)) as u16) >> 8u16) & 0xff) as u8 == b) by (bit_vector);
    assert(u16_le_bytes(v) =~= seq![a, b]);
}

/// The bytes of the little-endian `u32` read from four bytes are those bytes.
proof fn lemma_le32_bytes(a: u8, b: u8, c: u8, d: u8)
    ensures
        u32_le_bytes(le32(a, b, c, d)) == seq![a, b, c, d],
{
    let v = le32(a, b, c, d);
    assert(v == ((a as u32) | ((b as u32) << 8u32) | ((c as u32) << 16u32) | ((d as u32) << 24u32)));
    assert((((a as u32) | ((b as u32) << 8u32) | ((c as u32) << 16u32) | ((d as u32) << 24u32)) & 0xff) as u8 == a
        && ((((a as u32) | ((b as u32) << 8u32) | ((c as u32) << 16u32) | ((d as u32) << 24u32)) >> 8u32) & 0xff) as u8
        == b && ((((a as u32) | ((b as u32) << 8u32) | ((c as u32) << 16u32) | ((d as u32) << 24u32)) >> 16u32)
        & 0xff) as u8 == c && ((((a as u32) | ((b as u32) << 8u32) | ((c as u32) << 16u32) | ((d as u32) << 24u32))
        >> 24u32) & 0xff) as u8 == d) by (bit_vector);
    assert(u32_le_bytes(v) =~= seq![a, b, c, d]);
}

/// Writing the register and chip that a second-chip register byte gives
/// yields that byte.
proof fn lemma_method2_read(r: u8)
    ensures
        method2_register(r & 0x7F, if r & 0x80 != 0 { 1u8 } else { 0u8 }) == r,
{
    assert(r & 0x80 != 0 ==> (r & 0x7F) | 0x80 == r) by (bit_vector);
    assert(r & 0x80 == 0 ==> (r & 0x7F) & 0x7F == r) by (bit_vector);
}


proof fn lemma_rewrites_part0(s: Seq<u8>, legacy: bool)
    requires
        s.len() >= 1,
        s[0] == 0x30 || s[0] == 0x31 || s[0] == 0x3F || s[0] == 0x4F || s[0] == 0x50 || s[0] == 0x51 || s[0] == 0x52 || s[0] == 0x53 || s[0] == 0x54 || s[0] == 0x55 || s[0] == 0x56 || s[0] == 0x57 || s[0] == 0x58 || s[0] == 0x59 || s[0] == 0x5A || s[0] == 0x5B,
        fixed_operand_count(s[0], legacy) >= 0,
        s.len() > fixed_operand_count(s[0], legacy),
        rewrites_same(s[0], legacy),
    ensures
        command_bytes(decode_fixed(s[0], s.skip(1), legacy)) == s.take(fixed_operand_count(s[0], legacy) + 1),
{
    let op = s[0];
    let t = s.skip(1);

    if op == 0x30 {
        assert(command_bytes(decode_fixed(op, t, legacy)) =~= s.take(fixed_operand_count(op, legacy) + 1));
    } else if op == 0x31 {
        assert(command_bytes(decode_fixed(op, t, legacy)) =~= s.take(fixed_operand_count(op, legacy) + 1));
    } else if op == 0x3F {
        assert(command_bytes(decode_fixed(op, t, legacy)) =~= s.take(fixed_operand_count(op, legacy) + 1));
    } else if op == 0x4F {
        assert(command_bytes(decode_fixed(op, t, legacy)) =~= s.take(fixed_operand_count(op, legacy) + 1));
    } else if op == 0x50 {
        assert(command_bytes(decode_fixed(op, t, legacy)) =~= s.take(fixed_operand_count(op, legacy) + 1));
    } else if op == 0x51 {
        assert(command_bytes(decode_fixed(op, t, legacy)) =~= s.take(fixed_operand_count(op, legacy) + 1));
    } else if op == 0x52 {
        assert(command_bytes(decode_fixed(op, t, legacy)) =~= s.take(fixed_operand_count(op, legacy) + 1));
    } else if op == 0x53 {
        assert(command_bytes(decode_fixed(op, t, legacy)) =~= s.take(fixed_operand_count(op, legacy) + 1));
    } else if op == 0x54 {
        assert(command_bytes(decode_fixed(op, t, legacy)) =~= s.take(fixed_operand_count(op, legacy) + 1));
    } else if op == 0x55 {
        assert(command_bytes(decode_fixed(op, t, legacy)) =~= s.take(fixed_operand_count(op, legacy) + 1));
    } else if op == 0x56 {
        assert(command_bytes(decode_fixed(op, t, legacy)) =~= s.take(fixed_operand_count(op, legacy) + 1));
    } else if op == 0x57 {
        assert(command_bytes(decode_fixed(op, t, legacy)) =~= s.take(fixed_operand_count(op, legacy) + 1));
    } else if op == 0x58 {
        assert(command_bytes(decode_fixed(op, t, legacy)) =~= s.take(fixed_operand_count(op, legacy) + 1));
    } else if op == 0x59 {
        assert(command_bytes(decode_fixed(op, t, legacy)) =~= s.take(fixed_operand_count(op, legacy) + 1));
    } else if op == 0x5A {
        assert(command_bytes(decode_fixed(op, t, legacy)) =~= s.take(fixed_operand_count(op, legacy) + 1));
    } else if op == 0x5B {
        assert(command_bytes(decode_fixed(op, t, legacy)) =~= s.take(fixed_operand_count(op, legacy) + 1));
    }
}

proof fn lemma_rewrites_part1(s: Seq<u8>, legacy: bool)
    requires
        s.len() >= 1,
        s[0] == 0x5C || s[0] == 0x5D || s[0] == 0x5E || s[0] == 0x5F || s[0] == 0x61 || s[0] == 0x62 || s[0] == 0x63 || s[0] == 0x66 || s[0] == 0x70 || s[0] == 0x71 || s[0] == 0x72 || s[0] == 0x73 || s[0] == 0x74 || s[0] == 0x75 || s[0] == 0x76 || s[0] == 0x77,
        fixed_operand_count(s[0], legacy) >= 0,
        s.len() > fixed_operand_count(s[0], legacy),
        rewrites_same(s[0], legacy),
    ensures
        command_bytes(decode_fixed(s[0], s.skip(1), legacy)) == s.take(fixed_operand_count(s[0], legacy) + 1),
{
    let op = s[0];
    let t = s.skip(1);

    if op == 0x5C {
        assert(command_bytes(decode_fixed(op, t, legacy)) =~= s.take(fixed_operand_count(op, legacy) + 1));
    } else if op == 0x5D {
        assert(command_bytes(decode_fixed(op, t, legacy)) =~= s.take(fixed_operand_count(op, legacy) + 1));
    } else if op == 0x5E {
        assert(command_bytes(decode_fixed(op, t, legacy)) =~= s.take(fixed_operand_count(op, legacy) + 1));
    } else if op == 0x5F {
        assert(command_bytes(decode_fixed(op, t, legacy)) =~= s.take(fixed_operand_count(op, legacy) + 1));
    } else if op == 0x61 {
        lemma_le16_bytes(t[0], t[1]);
        assert(command_bytes(decode_fixed(op, t, legacy)) =~= s.take(fixed_operand_count(op, legacy) + 1));
    } else if op == 0x62 {
        assert(command_bytes(decode_fixed(op, t, legacy)) =~= s.take(fixed_operand_count(op, legacy) + 1));
    } else if op == 0x63 {
        assert(command_bytes(decode_fixed(op, t, legacy)) =~= s.take(fixed_operand_count(op, legacy) + 1));
    } else if op == 0x66 {
        assert(command_bytes(decode_fixed(op, t, legacy)) =~= s.take(fixed_operand_count(op, legacy) + 1));
    } else if op == 0x70 {
        assert(command_bytes(decode_fixed(op, t, legacy)) =~= s.take(fixed_operand_count(op, legacy) + 1));
    } else if op == 0x71 {
        assert(command_bytes(decode_fixed(op, t, legacy)) =~= s.take(fixed_operand_count(op, legacy) + 1));
    } else if op == 0x72 {
        assert(command_bytes(decode_fixed(op, t, legacy)) =~= s.take(fixed_operand_count(op, legacy) + 1));
    } else if op == 0x73 {
        assert(command_bytes(decode_fixed(op, t, legacy)) =~= s.take(fixed_operand_count(op, legacy) + 1));
    } else if op == 0x74 {
        assert(command_bytes(decode_fixed(op, t, legacy)) =~= s.take(fixed_operand_count(op, legacy) + 1));
    } else if op == 0x75 {
        assert(command_bytes(decode_fixed(op, t, legacy)) =~= s.take(fixed_operand_count(op, legacy) + 1));
    } else if op == 0x76 {
        assert(command_bytes(decode_fixed(op, t, legacy)) =~= s.take(fixed_operand_count(op, legacy) + 1));
    } else if op == 0x77 {
        assert(command_bytes(decode_fixed(op, t, legacy)) =~= s.take(fixed_operand_count(op, legacy) + 1));
    }
}

proof fn lemma_rewrites_part2(s: Seq<u8>, legacy: bool)
    requires
        s.len() >= 1,
        s[0] == 0x78 || s[0] == 0x79 || s[0] == 0x7A || s[0] == 0x7B || s[0] == 0x7C || s[0] == 0x7D || s[0] == 0x7E || s[0] == 0x7F || s[0] == 0x80 || s[0] == 0x81 || s[0] == 0x82 || s[0] == 0x83 || s[0] == 0x84 || s[0] == 0x85 || s[0] == 0x86 || s[0] == 0x87,
        fixed_operand_count(s[0], legacy) >= 0,
        s.len() > fixed_operand_count(s[0], legacy),
        rewrites_same(s[0], legacy),
    ensures
        command_bytes(decode_fixed(s[0], s.skip(1), legacy)) == s.take(fixed_operand_count(s[0], legacy) + 1),
{
    let op = s[0];
    let t = s.skip(1);

    if op == 0x78 {
        assert(command_bytes(decode_fixed(op, t, legacy)) =~= s.take(fixed_operand_count(op, legacy) + 1));
    } else if op == 0x79 {
        assert(command_bytes(decode_fixed(op, t, legacy)) =~= s.take(fixed_operand_count(op, legacy) + 1));
    } else if op == 0x7A {
        assert(command_bytes(decode_fixed(op, t, legacy)) =~= s.take(fixed_operand_count(op, legacy) + 1));
    } else if op == 0x7B {
        assert(command_bytes(decode_fixed(op, t, legacy)) =~= s.take(fixed_operand_count(op, legacy) + 1));
    } else if op == 0x7C {
        assert(command_bytes(decode_fixed(op, t, legacy)) =~= s.take(fixed_operand_count(op, legacy) + 1));
    } else if op == 0x7D {
        assert(command_bytes(decode_fixed(op, t, legacy)) =~= s.take(fixed_operand_count(op, legacy) + 1));
    } else if op == 0x7E {
        assert(command_bytes(decode_fixed(op, t, legacy)) =~= s.take(fixed_operand_count(op, legacy) + 1));
    } else if op == 0x7F {
        assert(command_bytes(decode_fixed(op, t, legacy)) =~= s.take(fixed_operand_count(op, legacy) + 1));
    } else if op == 0x80 {
        assert(command_bytes(decode_fixed(op, t, legacy)) =~= s.take(fixed_operand_count(op, legacy) + 1));
    } else if op == 0x81 {
        assert(command_bytes(decode_fixed(op, t, legacy)) =~= s.take(fixed_operand_count(op, legacy) + 1));
    } else if op == 0x82 {
        assert(command_bytes(decode_fixed(op, t, legacy)) =~= s.take(fixed_operand_count(op, legacy) + 1));
    } else if op == 0x83 {
        assert(command_bytes(decode_fixed(op, t, legacy)) =~= s.take(fixed_operand_count(op, legacy) + 1));
    } else if op == 0x84 {
        assert(command_bytes(decode_fixed(op, t, legacy)) =~= s.take(fixed_operand_count(op, legacy) + 1));
    } else if op == 0x85 {
        assert(command_bytes(decode_fixed(op, t, legacy)) =~= s.take(fixed_operand_count(op, legacy) + 1));
    } else if op == 0x86 {
        assert(command_bytes(decode_fixed(op, t, legacy)) =~= s.take(fixed_operand_count(op, legacy) + 1));
    } else if op == 0x87 {
        assert(command_bytes(decode_fixed(op, t, legacy)) =~= s.take(fixed_operand_count(op, legacy) + 1));
    }
}

proof fn lemma_rewrites_part3(s: Seq<u8>, legacy: bool)
    requires
        s.len() >= 1,
        s[0] == 0x88 || s[0] == 0x89 || s[0] == 0x8A || s[0] == 0x8B || s[0] == 0x8C || s[0] == 0x8D || s[0] == 0x8E || s[0] == 0x8F || s[0] == 0x90 || s[0] == 0x91 || s[0] == 0x92 || s[0] == 0x93 || s[0] == 0x94 || s[0] == 0x95 || s[0] == 0xA0 || s[0] == 0xA1,
        fixed_operand_count(s[0], legacy) >= 0,
        s.len() > fixed_operand_count(s[0], legacy),
        rewrites_same(s[0], legacy),
    ensures
        command_bytes(decode_fixed(s[0], s.skip(1), legacy)) == s.take(fixed_operand_count(s[0], legacy) + 1),
{
    let op = s[0];
    let t = s.skip(1);

    if op == 0x88 {
        assert(command_bytes(decode_fixed(op, t, legacy)) =~= s.take(fixed_operand_count(op, legacy) + 1));
    } else if op == 0x89 {
        assert(command_bytes(decode_fixed(op, t, legacy)) =~= s.take(fixed_operand_count(op, legacy) + 1));
    } else if op == 0x8A {
        assert(command_bytes(decode_fixed(op, t, legacy)) =~= s.take(fixed_operand_count(op, legacy) + 1));
    } else if op == 0x8B {
        assert(command_bytes(decode_fixed(op, t, legacy)) =~= s.take(fixed_operand_count(op, legacy) + 1));
    } else if op == 0x8C {
        assert(command_bytes(decode_fixed(op, t, legacy)) =~= s.take(fixed_operand_count(op, legacy) + 1));
    } else if op == 0x8D {
        assert(command_bytes(decode_fixed(op, t, legacy)) =~= s.take(fixed_operand_count(op, legacy) + 1));
    } else if op == 0x8E {
        assert(command_bytes(decode_fixed(op, t, legacy)) =~= s.take(fixed_operand_count(op, legacy) + 1));
    } else if op == 0x8F {
        assert(command_bytes(decode_fixed(op, t, legacy)) =~= s.take(fixed_operand_count(op, legacy) + 1));
    } else if op == 0x90 {
        lemma_method2_read(t[1]);
        assert(command_bytes(decode_fixed(op, t, legacy)) =~= s.take(fixed_operand_count(op, legacy) + 1));
    } else if op == 0x91 {
        assert(command_bytes(decode_fixed(op, t, legacy)) =~= s.take(fixed_operand_count(op, legacy) + 1));
    } else if op == 0x92 {
        lemma_le32_bytes(t[1], t[2], t[3], t[4]);
        assert(command_bytes(decode_fixed(op, t, legacy)) =~= s.take(fixed_operand_count(op, legacy) + 1));
    } else if op == 0x93 {
        lemma_le32_bytes(t[1], t[2], t[3], t[4]);
        lemma_le32_bytes(t[6], t[7], t[8], t[9]);
        assert(command_bytes(decode_fixed(op, t, legacy)) =~= s.take(fixed_operand_count(op, legacy) + 1));
    } else if op == 0x94 {
        assert(command_bytes(decode_fixed(op, t, legacy)) =~= s.take(fixed_operand_count(op, legacy) + 1));
    } else if op == 0x95 {
        lemma_le16_bytes(t[1], t[2]);
        assert(command_bytes(decode_fixed(op, t, legacy)) =~= s.take(fixed_operand_count(op, legacy) + 1));
    } else if op == 0xA0 {
        lemma_method2_read(t[0]);
        assert(command_bytes(decode_fixed(op, t, legacy)) =~= s.take(fixed_operand_count(op, legacy) + 1));
    } else if op == 0xA1 {
        assert(command_bytes(decode_fixed(op, t, legacy)) =~= s.take(fixed_operand_count(op, legacy) + 1));
    }
}

proof fn lemma_rewrites_part4(s: Seq<u8>, legacy: bool)
    requires
        s.len() >= 1,
        s[0] == 0xA2 || s[0] == 0xA3 || s[0] == 0xA4 || s[0] == 0xA5 || s[0] == 0xA6 || s[0] == 0xA7 || s[0] == 0xA8 || s[0] == 0xA9 || s[0] == 0xAA || s[0] == 0xAB || s[0] == 0xAC || s[0] == 0xAD || s[0] == 0xAE || s[0] == 0xAF || s[0] == 0xB0 || s[0] == 0xB1,
        fixed_operand_count(s[0], legacy) >= 0,
        s.len() > fixed_operand_count(s[0], legacy),
        rewrites_same(s[0], legacy),
    ensures
        command_bytes(decode_fixed(s[0], s.skip(1), legacy)) == s.take(fixed_operand_count(s[0], legacy) + 1),
{
    let op = s[0];
    let t = s.skip(1);

    if op == 0xA2 {
        assert(command_bytes(decode_fixed(op, t, legacy)) =~= s.take(fixed_operand_count(op, legacy) + 1));
    } else if op == 0xA3 {
        assert(command_bytes(decode_fixed(op, t, legacy)) =~= s.take(fixed_operand_count(op, legacy) + 1));
    } else if op == 0xA4 {
        assert(command_bytes(decode_fixed(op, t, legacy)) =~= s.take(fixed_operand_count(op, legacy) + 1));
    } else if op == 0xA5 {
        assert(command_bytes(decode_fixed(op, t, legacy)) =~= s.take(fixed_operand_count(op, legacy) + 1));
    } else if op == 0xA6 {
        assert(command_bytes(decode_fixed(op, t, legacy)) =~= s.take(fixed_operand_count(op, legacy) + 1));
    } else if op == 0xA7 {
        assert(command_bytes(decode_fixed(op, t, legacy)) =~= s.take(fixed_operand_count(op, legacy) + 1));
    } else if op == 0xA8 {
        assert(command_bytes(decode_fixed(op, t, legacy)) =~= s.take(fixed_operand_count(op, legacy) + 1));
    } else if op == 0xA9 {
        assert(command_bytes(decode_fixed(op, t, legacy)) =~= s.take(fixed_operand_count(op, legacy) + 1));
    } else if op == 0xAA {
        assert(command_bytes(decode_fixed(op, t, legacy)) =~= s.take(fixed_operand_count(op, legacy) + 1));
    } else if op == 0xAB {
        assert(command_bytes(decode_fixed(op, t, legacy)) =~= s.take(fixed_operand_count(op, legacy) + 1));
    } else if op == 0xAC {
        assert(command_bytes(decode_fixed(op, t, legacy)) =~= s.take(fixed_operand_count(op, legacy) + 1));
    } else if op == 0xAD {
        assert(command_bytes(decode_fixed(op, t, legacy)) =~= s.take(fixed_operand_count(op, legacy) + 1));
    } else if op == 0xAE {
        assert(command_bytes(decode_fixed(op, t, legacy)) =~= s.take(fixed_operand_count(op, legacy) + 1));
    } else if op == 0xAF {
        assert(command_bytes(decode_fixed(op, t, legacy)) =~= s.take(fixed_operand_count(op, legacy) + 1));
    } else if op == 0xB0 {
        assert(command_bytes(decode_fixed(op, t, legacy)) =~= s.take(fixed_operand_count(op, legacy) + 1));
    } else if op == 0xB1 {
        assert(command_bytes(decode_fixed(op, t, legacy)) =~= s.take(fixed_operand_count(op, legacy) + 1));
    }
}

proof fn lemma_rewrites_part5(s: Seq<u8>, legacy: bool)
    requires
        s.len() >= 1,
        s[0] == 0xB2 || s[0] == 0xB3 || s[0] == 0xB4 || s[0] == 0xB5 || s[0] == 0xB6 || s[0] == 0xB7 || s[0] == 0xB8 || s[0] == 0xB9 || s[0] == 0xBA || s[0] == 0xBB || s[0] == 0xBC || s[0] == 0xBD || s[0] == 0xBE || s[0] == 0xBF || s[0] == 0xC0 || s[0] == 0xC1,
        fixed_operand_count(s[0], legacy) >= 0,
        s.len() > fixed_operand_count(s[0], legacy),
        rewrites_same(s[0], legacy),
    ensures
        command_bytes(decode_fixed(s[0], s.skip(1), legacy)) == s.take(fixed_operand_count(s[0], legacy) + 1),
{
    let op = s[0];
    let t = s.skip(1);

    if op == 0xB2 {
        lemma_le16_bytes(t[1], t[2]);
        assert(command_bytes(decode_fixed(op, t, legacy)) =~= s.take(fixed_operand_count(op, legacy) + 1));
    } else if op == 0xB3 {
        lemma_method2_read(t[0]);
        assert(command_bytes(decode_fixed(op, t, legacy)) =~= s.take(fixed_operand_count(op, legacy) + 1));
    } else if op == 0xB4 {
        lemma_method2_read(t[0]);
        assert(command_bytes(decode_fixed(op, t, legacy)) =~= s.take(fixed_operand_count(op, legacy) + 1));
    } else if op == 0xB5 {
        lemma_method2_read(t[0]);
        assert(command_bytes(decode_fixed(op, t, legacy)) =~= s.take(fixed_operand_count(op, legacy) + 1));
    } else if op == 0xB6 {
        lemma_method2_read(t[0]);
        assert(command_bytes(decode_fixed(op, t, legacy)) =~= s.take(fixed_operand_count(op, legacy) + 1));
    } else if op == 0xB7 {
        lemma_method2_read(t[0]);
        assert(command_bytes(decode_fixed(op, t, legacy)) =~= s.take(fixed_operand_count(op, legacy) + 1));
    } else if op == 0xB8 {
        lemma_method2_read(t[0]);
        assert(command_bytes(decode_fixed(op, t, legacy)) =~= s.take(fixed_operand_count(op, legacy) + 1));
    } else if op == 0xB9 {
        lemma_method2_read(t[0]);
        assert(command_bytes(decode_fixed(op, t, legacy)) =~= s.take(fixed_operand_count(op, legacy) + 1));
    } else if op == 0xBA {
        lemma_method2_read(t[0]);
        assert(command_bytes(decode_fixed(op, t, legacy)) =~= s.take(fixed_operand_count(op, legacy) + 1));
    } else if op == 0xBB {
        lemma_method2_read(t[0]);
        assert(command_bytes(decode_fixed(op, t, legacy)) =~= s.take(fixed_operand_count(op, legacy) + 1));
    } else if op == 0xBC {
        lemma_method2_read(t[0]);
        assert(command_bytes(decode_fixed(op, t, legacy)) =~= s.take(fixed_operand_count(op, legacy) + 1));
    } else if op == 0xBD {
        lemma_method2_read(t[0]);
        assert(command_bytes(decode_fixed(op, t, legacy)) =~= s.take(fixed_operand_count(op, legacy) + 1));
    } else if op == 0xBE {
        lemma_method2_read(t[0]);
        assert(command_bytes(decode_fixed(op, t, legacy)) =~= s.take(fixed_operand_count(op, legacy) + 1));
    } else if op == 0xBF {
        lemma_method2_read(t[0]);
        assert(command_bytes(decode_fixed(op, t, legacy)) =~= s.take(fixed_operand_count(op, legacy) + 1));
    } else if op == 0xC0 {
        lemma_le16_bytes(t[0], t[1]);
        assert(command_bytes(decode_fixed(op, t, legacy)) =~= s.take(fixed_operand_count(op, legacy) + 1));
    } else if op == 0xC1 {
        lemma_le16_bytes(t[0], t[1]);
        assert(command_bytes(decode_fixed(op, t, legacy)) =~= s.take(fixed_operand_count(op, legacy) + 1));
    }
}

proof fn lemma_rewrites_part6(s: Seq<u8>, legacy: bool)
    requires
        s.len() >= 1,
        s[0] == 0xC2 || s[0] == 0xC3 || s[0] == 0xC4 || s[0] == 0xC5 || s[0] == 0xC6 || s[0] == 0xC7 || s[0] == 0xC8 || s[0] == 0xD0 || s[0] == 0xD1 || s[0] == 0xD2 || s[0] == 0xD3 || s[0] == 0xD4 || s[0] == 0xD5 || s[0] == 0xD6 || s[0] == 0xE0 || s[0] == 0xE1,
        fixed_operand_count(s[0], legacy) >= 0,
        s.len() > fixed_operand_count(s[0], legacy),
        rewrites_same(s[0], legacy),
    ensures
        command_bytes(decode_fixed(s[0], s.skip(1), legacy)) == s.take(fixed_operand_count(s[0], legacy) + 1),
{
    let op = s[0];
    let t = s.skip(1);

    if op == 0xC2 {
        lemma_le16_bytes(t[0], t[1]);
        assert(command_bytes(decode_fixed(op, t, legacy)) =~= s.take(fixed_operand_count(op, legacy) + 1));
    } else if op == 0xC3 {
        lemma_le16_bytes(t[1], t[2]);
        assert(command_bytes(decode_fixed(op, t, legacy)) =~= s.take(fixed_operand_count(op, legacy) + 1));
    } else if op == 0xC4 {
        lemma_le16_bytes(t[0], t[1]);
        assert(command_bytes(decode_fixed(op, t, legacy)) =~= s.take(fixed_operand_count(op, legacy) + 1));
    } else if op == 0xC5 {
        lemma_le16_bytes(t[0], t[1]);
        assert(command_bytes(decode_fixed(op, t, legacy)) =~= s.take(fixed_operand_count(op, legacy) + 1));
    } else if op == 0xC6 {
        lemma_le16_bytes(t[0], t[1]);
        assert(command_bytes(decode_fixed(op, t, legacy)) =~= s.take(fixed_operand_count(op, legacy) + 1));
    } else if op == 0xC7 {
        lemma_le16_bytes(t[0], t[1]);
        assert(command_bytes(decode_fixed(op, t, legacy)) =~= s.take(fixed_operand_count(op, legacy) + 1));
    } else if op == 0xC8 {
        lemma_le16_bytes(t[0], t[1]);
        assert(command_bytes(decode_fixed(op, t, legacy)) =~= s.take(fixed_operand_count(op, legacy) + 1));
    } else if op == 0xD0 {
        assert(command_bytes(decode_fixed(op, t, legacy)) =~= s.take(fixed_operand_count(op, legacy) + 1));
    } else if op == 0xD1 {
        assert(command_bytes(decode_fixed(op, t, legacy)) =~= s.take(fixed_operand_count(op, legacy) + 1));
    } else if op == 0xD2 {
        assert(command_bytes(decode_fixed(op, t, legacy)) =~= s.take(fixed_operand_count(op, legacy) + 1));
    } else if op == 0xD3 {
        lemma_le16_bytes(t[0], t[1]);
        assert(command_bytes(decode_fixed(op, t, legacy)) =~= s.take(fixed_operand_count(op, legacy) + 1));
    } else if op == 0xD4 {
        lemma_le16_bytes(t[0], t[1]);
        assert(command_bytes(decode_fixed(op, t, legacy)) =~= s.take(fixed_operand_count(op, legacy) + 1));
    } else if op == 0xD5 {
        lemma_le16_bytes(t[0], t[1]);
        assert(command_bytes(decode_fixed(op, t, legacy)) =~= s.take(fixed_operand_count(op, legacy) + 1));
    } else if op == 0xD6 {
        lemma_le16_bytes(t[1], t[2]);
        assert(command_bytes(decode_fixed(op, t, legacy)) =~= s.take(fixed_operand_count(op, legacy) + 1));
    } else if op == 0xE0 {
        lemma_le32_bytes(t[0], t[1], t[2], t[3]);
        assert(command_bytes(decode_fixed(op, t, legacy)) =~= s.take(fixed_operand_count(op, legacy) + 1));
    } else if op == 0xE1 {
        lemma_le16_bytes(t[0], t[1]);
        lemma_le16_bytes(t[2], t[3]);
        assert(command_bytes(decode_fixed(op, t, legacy)) =~= s.take(fixed_operand_count(op, legacy) + 1));
    }
}

/// Reading a command of fixed length and writing it again gives back the
/// bytes it was read from, for every opcode whose writer uses the layout
/// that its reader reads (see `rewrites_same`).
pub proof fn lemma_fixed_command_rewrites(s: Seq<u8>, legacy: bool)
    requires
        s.len() >= 1,
        fixed_operand_count(s[0], legacy) >= 0,
        s.len() > fixed_operand_count(s[0], legacy),
        rewrites_same(s[0], legacy),
    ensures
        command_bytes(decode_fixed(s[0], s.skip(1), legacy)) == s.take(fixed_operand_count(s[0], legacy) + 1),
{
    let op = s[0];
    if op == 0x30 || op == 0x31 || op == 0x3F || op == 0x4F || op == 0x50 || op == 0x51 || op == 0x52 || op == 0x53 || op == 0x54 || op == 0x55 || op == 0x56 || op == 0x57 || op == 0x58 || op == 0x59 || op == 0x5A || op == 0x5B {
        lemma_rewrites_part0(s, legacy);
    } else if op == 0x5C || op == 0x5D || op == 0x5E || op == 0x5F || op == 0x61 || op == 0x62 || op == 0x63 || op == 0x66 || op == 0x70 || op == 0x71 || op == 0x72 || op == 0x73 || op == 0x74 || op == 0x75 || op == 0x76 || op == 0x77 {
        lemma_rewrites_part1(s, legacy);
    } else if op == 0x78 || op == 0x79 || op == 0x7A || op == 0x7B || op == 0x7C || op == 0x7D || op == 0x7E || op == 0x7F || op == 0x80 || op == 0x81 || op == 0x82 || op == 0x83 || op == 0x84 || op == 0x85 || op == 0x86 || op == 0x87 {
        lemma_rewrites_part2(s, legacy);
    } else if op == 0x88 || op == 0x89 || op == 0x8A || op == 0x8B || op == 0x8C || op == 0x8D || op == 0x8E || op == 0x8F || op == 0x90 || op == 0x91 || op == 0x92 || op == 0x93 || op == 0x94 || op == 0x95 || op == 0xA0 || op == 0xA1 {
        lemma_rewrites_part3(s, legacy);
    } else if op == 0xA2 || op == 0xA3 || op == 0xA4 || op == 0xA5 || op == 0xA6 || op == 0xA7 || op == 0xA8 || op == 0xA9 || op == 0xAA || op == 0xAB || op == 0xAC || op == 0xAD || op == 0xAE || op == 0xAF || op == 0xB0 || op == 0xB1 {
        lemma_rewrites_part4(s, legacy);
    } else if op == 0xB2 || op == 0xB3 || op == 0xB4 || op == 0xB5 || op == 0xB6 || op == 0xB7 || op == 0xB8 || op == 0xB9 || op == 0xBA || op == 0xBB || op == 0xBC || op == 0xBD || op == 0xBE || op == 0xBF || op == 0xC0 || op == 0xC1 {
        lemma_rewrites_part5(s, legacy);
    } else if op == 0xC2 || op == 0xC3 || op == 0xC4 || op == 0xC5 || op == 0xC6 || op == 0xC7 || op == 0xC8 || op == 0xD0 || op == 0xD1 || op == 0xD2 || op == 0xD3 || op == 0xD4 || op == 0xD5 || op == 0xD6 || op == 0xE0 || op == 0xE1 {
        lemma_rewrites_part6(s, legacy);
    }
}

/// Reading a command and writing it again gives back the bytes it was read
/// from, for the commands of fixed length whose opcode the writer lays out
/// as the reader reads it (see `rewrites_same`).
pub proof fn lemma_read_then_write(s: Seq<u8>, config: Option<ParserConfig>, t: ResourceTracker, c: Commands)
    requires
        command_step(s, config, t) is Done,
        command_parsed(s, config, c),
        fixed_operand_count(s[0], config is None) >= 0,
        rewrites_same(s[0], config is None),
    ensures
        command_bytes(c) == s.take(step_len(command_step(s, config, t)) as int),
{
    lemma_fixed_command_rewrites(s, config is None);
}

/// Whether `write_commands` can write `c`: its wait fits its opcode and a
/// data block's size field fits in 32 bits.
pub fn is_writable(c: &Commands) -> (b: bool)
    ensures
        b == writable(*c),
{
    match c {
        Commands::WaitNSamplesPlus1 { n } => *n <= 0x8F,
        Commands::YM2612Port0Address2AWriteWait { n } => *n <= 0x7F,
        Commands::DataBlock { data, .. } => {
            let (len, extra): (usize, u64) = match data {
                DataBlockContent::UncompressedStream { data, .. } => (data.len(), 0),
                DataBlockContent::CompressedStream { data, .. } => (data.len(), 9),
                DataBlockContent::DecompressionTable { table_data, .. } => (table_data.len(), 6),
                DataBlockContent::ROMDump { data, .. } => (data.len(), 8),
                DataBlockContent::RAMWriteSmall { data, .. } => (data.len(), 2),
                DataBlockContent::RAMWriteLarge { data, .. } => (data.len(), 4),
                DataBlockContent::Unknown { data } => (data.len(), 0),
            };
            len as u64 <= 0xFFFF_FFFF - extra
        },
        _ => true,
    }
}
} // verus!

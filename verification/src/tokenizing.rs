//! Tokens for VGM data: the chips a header sets up, and a registry that
//! gives each distinct instruction a token.

use crate::header::HeaderData;
use crate::systems::System;
use crate::vgm_commands::{Commands, DataBlockContent};
use vstd::prelude::*;

verus! {

/// A chip and its clock.
#[derive(Debug, PartialEq, Eq, Structural, Hash, Clone, Copy)]
pub struct ChipPayload {
    pub system: System,
    pub clock_value: u32,
}

impl ChipPayload {
    /// A chip with its clock.
    pub fn new(system: System, clock_value: u32) -> (p: Self)
        ensures
            p == (ChipPayload { system, clock_value }),
    {
        ChipPayload { system, clock_value }
    }
}

/// An instruction of the token stream.
#[derive(Debug, PartialEq, Eq, Hash, Clone)]
pub enum ExtendedInstructionSet {
    StartFile,
    EndHeader,
    SetChip(ChipPayload),
    VgmCommand(Commands),
}

/// Whether two data block contents are the same.
pub open spec fn contents_same(a: DataBlockContent, b: DataBlockContent) -> bool {
    match (a, b) {
        (
            DataBlockContent::UncompressedStream { chip_type: c1, data: d1 },
            DataBlockContent::UncompressedStream { chip_type: c2, data: d2 },
        ) => c1 == c2 && d1@ == d2@,
        (
            DataBlockContent::CompressedStream {
                chip_type: c1,
                compression: k1,
                uncompressed_size: u1,
                data: d1,
            },
            DataBlockContent::CompressedStream {
                chip_type: c2,
                compression: k2,
                uncompressed_size: u2,
                data: d2,
            },
        ) => c1 == c2 && k1 == k2 && u1 == u2 && d1@ == d2@,
        (
            DataBlockContent::DecompressionTable {
                compression_type: t1,
                sub_type: s1,
                bits_decompressed: a1,
                bits_compressed: b1,
                value_count: v1,
                table_data: d1,
            },
            DataBlockContent::DecompressionTable {
                compression_type: t2,
                sub_type: s2,
                bits_decompressed: a2,
                bits_compressed: b2,
                value_count: v2,
                table_data: d2,
            },
        ) => t1 == t2 && s1 == s2 && a1 == a2 && b1 == b2 && v1 == v2 && d1@ == d2@,
        (
            DataBlockContent::ROMDump { chip_type: c1, total_size: t1, start_address: s1, data: d1 },
            DataBlockContent::ROMDump { chip_type: c2, total_size: t2, start_address: s2, data: d2 },
        ) => c1 == c2 && t1 == t2 && s1 == s2 && d1@ == d2@,
        (
            DataBlockContent::RAMWriteSmall { chip_type: c1, start_address: s1, data: d1 },
            DataBlockContent::RAMWriteSmall { chip_type: c2, start_address: s2, data: d2 },
        ) => c1 == c2 && s1 == s2 && d1@ == d2@,
        (
            DataBlockContent::RAMWriteLarge { chip_type: c1, start_address: s1, data: d1 },
            DataBlockContent::RAMWriteLarge { chip_type: c2, start_address: s2, data: d2 },
        ) => c1 == c2 && s1 == s2 && d1@ == d2@,
        (DataBlockContent::Unknown { data: d1 }, DataBlockContent::Unknown { data: d2 }) => d1@ == d2@,
        _ => false,
    }
}

/// Whether two commands are the same: the same variant with the same fields.
pub open spec fn commands_same(a: Commands, b: Commands) -> bool {
    match (a, b) {
        (Commands::AY8910StereoMask { value: value1 }, Commands::AY8910StereoMask { value: value2 }) => value1 == value2,
        (Commands::GameGearPSGStereo { value: value1, chip_index: chip_index1 }, Commands::GameGearPSGStereo { value: value2, chip_index: chip_index2 }) => value1 == value2 && chip_index1 == chip_index2,
        (Commands::PSGWrite { value: value1, chip_index: chip_index1 }, Commands::PSGWrite { value: value2, chip_index: chip_index2 }) => value1 == value2 && chip_index1 == chip_index2,
        (Commands::YM2413Write { register: register1, value: value1, chip_index: chip_index1 }, Commands::YM2413Write { register: register2, value: value2, chip_index: chip_index2 }) => register1 == register2 && value1 == value2 && chip_index1 == chip_index2,
        (Commands::YM2612Port0Write { register: register1, value: value1, chip_index: chip_index1 }, Commands::YM2612Port0Write { register: register2, value: value2, chip_index: chip_index2 }) => register1 == register2 && value1 == value2 && chip_index1 == chip_index2,
        (Commands::YM2612Port1Write { register: register1, value: value1, chip_index: chip_index1 }, Commands::YM2612Port1Write { register: register2, value: value2, chip_index: chip_index2 }) => register1 == register2 && value1 == value2 && chip_index1 == chip_index2,
        (Commands::YM2151Write { register: register1, value: value1, chip_index: chip_index1 }, Commands::YM2151Write { register: register2, value: value2, chip_index: chip_index2 }) => register1 == register2 && value1 == value2 && chip_index1 == chip_index2,
        (Commands::YM2203Write { register: register1, value: value1, chip_index: chip_index1 }, Commands::YM2203Write { register: register2, value: value2, chip_index: chip_index2 }) => register1 == register2 && value1 == value2 && chip_index1 == chip_index2,
        (Commands::YM2608Port0Write { register: register1, value: value1, chip_index: chip_index1 }, Commands::YM2608Port0Write { register: register2, value: value2, chip_index: chip_index2 }) => register1 == register2 && value1 == value2 && chip_index1 == chip_index2,
        (Commands::YM2608Port1Write { register: register1, value: value1, chip_index: chip_index1 }, Commands::YM2608Port1Write { register: register2, value: value2, chip_index: chip_index2 }) => register1 == register2 && value1 == value2 && chip_index1 == chip_index2,
        (Commands::YM2610Port0Write { register: register1, value: value1, chip_index: chip_index1 }, Commands::YM2610Port0Write { register: register2, value: value2, chip_index: chip_index2 }) => register1 == register2 && value1 == value2 && chip_index1 == chip_index2,
        (Commands::YM2610Port1Write { register: register1, value: value1, chip_index: chip_index1 }, Commands::YM2610Port1Write { register: register2, value: value2, chip_index: chip_index2 }) => register1 == register2 && value1 == value2 && chip_index1 == chip_index2,
        (Commands::YM3812Write { register: register1, value: value1, chip_index: chip_index1 }, Commands::YM3812Write { register: register2, value: value2, chip_index: chip_index2 }) => register1 == register2 && value1 == value2 && chip_index1 == chip_index2,
        (Commands::YM3526Write { register: register1, value: value1, chip_index: chip_index1 }, Commands::YM3526Write { register: register2, value: value2, chip_index: chip_index2 }) => register1 == register2 && value1 == value2 && chip_index1 == chip_index2,
        (Commands::Y8950Write { register: register1, value: value1, chip_index: chip_index1 }, Commands::Y8950Write { register: register2, value: value2, chip_index: chip_index2 }) => register1 == register2 && value1 == value2 && chip_index1 == chip_index2,
        (Commands::YMZ280BWrite { register: register1, value: value1, chip_index: chip_index1 }, Commands::YMZ280BWrite { register: register2, value: value2, chip_index: chip_index2 }) => register1 == register2 && value1 == value2 && chip_index1 == chip_index2,
        (Commands::YMF262Port0Write { register: register1, value: value1, chip_index: chip_index1 }, Commands::YMF262Port0Write { register: register2, value: value2, chip_index: chip_index2 }) => register1 == register2 && value1 == value2 && chip_index1 == chip_index2,
        (Commands::YMF262Port1Write { register: register1, value: value1, chip_index: chip_index1 }, Commands::YMF262Port1Write { register: register2, value: value2, chip_index: chip_index2 }) => register1 == register2 && value1 == value2 && chip_index1 == chip_index2,
        (Commands::WaitNSamples { n: n1 }, Commands::WaitNSamples { n: n2 }) => n1 == n2,
        (Commands::Wait735Samples, Commands::Wait735Samples) => true,
        (Commands::Wait882Samples, Commands::Wait882Samples) => true,
        (Commands::EndOfSoundData, Commands::EndOfSoundData) => true,
        (Commands::DataBlock { block_type: block_type1, data: data1 }, Commands::DataBlock { block_type: block_type2, data: data2 }) => block_type1 == block_type2 && contents_same(data1, data2),
        (Commands::PCMRAMWrite { chip_type: chip_type1, read_offset: read_offset1, write_offset: write_offset1, size: size1, data: data1 }, Commands::PCMRAMWrite { chip_type: chip_type2, read_offset: read_offset2, write_offset: write_offset2, size: size2, data: data2 }) => chip_type1 == chip_type2 && read_offset1 == read_offset2 && write_offset1 == write_offset2 && size1 == size2 && data1@ == data2@,
        (Commands::WaitNSamplesPlus1 { n: n1 }, Commands::WaitNSamplesPlus1 { n: n2 }) => n1 == n2,
        (Commands::YM2612Port0Address2AWriteWait { n: n1 }, Commands::YM2612Port0Address2AWriteWait { n: n2 }) => n1 == n2,
        (Commands::DACStreamSetupControl { stream_id: stream_id1, chip_type: chip_type1, port: port1, command: command1, chip_index: chip_index1 }, Commands::DACStreamSetupControl { stream_id: stream_id2, chip_type: chip_type2, port: port2, command: command2, chip_index: chip_index2 }) => stream_id1 == stream_id2 && chip_type1 == chip_type2 && port1 == port2 && command1 == command2 && chip_index1 == chip_index2,
        (Commands::DACStreamSetData { stream_id: stream_id1, data_bank_id: data_bank_id1, step_size: step_size1, step_base: step_base1 }, Commands::DACStreamSetData { stream_id: stream_id2, data_bank_id: data_bank_id2, step_size: step_size2, step_base: step_base2 }) => stream_id1 == stream_id2 && data_bank_id1 == data_bank_id2 && step_size1 == step_size2 && step_base1 == step_base2,
        (Commands::DACStreamSetFrequency { stream_id: stream_id1, frequency: frequency1 }, Commands::DACStreamSetFrequency { stream_id: stream_id2, frequency: frequency2 }) => stream_id1 == stream_id2 && frequency1 == frequency2,
        (Commands::DACStreamStart { stream_id: stream_id1, data_start_offset: data_start_offset1, length_mode: length_mode1, data_length: data_length1 }, Commands::DACStreamStart { stream_id: stream_id2, data_start_offset: data_start_offset2, length_mode: length_mode2, data_length: data_length2 }) => stream_id1 == stream_id2 && data_start_offset1 == data_start_offset2 && length_mode1 == length_mode2 && data_length1 == data_length2,
        (Commands::DACStreamStop { stream_id: stream_id1 }, Commands::DACStreamStop { stream_id: stream_id2 }) => stream_id1 == stream_id2,
        (Commands::DACStreamStartFast { stream_id: stream_id1, block_id: block_id1, flags: flags1 }, Commands::DACStreamStartFast { stream_id: stream_id2, block_id: block_id2, flags: flags2 }) => stream_id1 == stream_id2 && block_id1 == block_id2 && flags1 == flags2,
        (Commands::AY8910Write { register: register1, value: value1, chip_index: chip_index1 }, Commands::AY8910Write { register: register2, value: value2, chip_index: chip_index2 }) => register1 == register2 && value1 == value2 && chip_index1 == chip_index2,
        (Commands::RF5C68Write { register: register1, value: value1 }, Commands::RF5C68Write { register: register2, value: value2 }) => register1 == register2 && value1 == value2,
        (Commands::RF5C164Write { register: register1, value: value1 }, Commands::RF5C164Write { register: register2, value: value2 }) => register1 == register2 && value1 == value2,
        (Commands::PWMWrite { register: register1, value: value1 }, Commands::PWMWrite { register: register2, value: value2 }) => register1 == register2 && value1 == value2,
        (Commands::GameBoyDMGWrite { register: register1, value: value1, chip_index: chip_index1 }, Commands::GameBoyDMGWrite { register: register2, value: value2, chip_index: chip_index2 }) => register1 == register2 && value1 == value2 && chip_index1 == chip_index2,
        (Commands::NESAPUWrite { register: register1, value: value1, chip_index: chip_index1 }, Commands::NESAPUWrite { register: register2, value: value2, chip_index: chip_index2 }) => register1 == register2 && value1 == value2 && chip_index1 == chip_index2,
        (Commands::MultiPCMWrite { register: register1, value: value1, chip_index: chip_index1 }, Commands::MultiPCMWrite { register: register2, value: value2, chip_index: chip_index2 }) => register1 == register2 && value1 == value2 && chip_index1 == chip_index2,
        (Commands::uPD7759Write { register: register1, value: value1, chip_index: chip_index1 }, Commands::uPD7759Write { register: register2, value: value2, chip_index: chip_index2 }) => register1 == register2 && value1 == value2 && chip_index1 == chip_index2,
        (Commands::OKIM6258Write { register: register1, value: value1, chip_index: chip_index1 }, Commands::OKIM6258Write { register: register2, value: value2, chip_index: chip_index2 }) => register1 == register2 && value1 == value2 && chip_index1 == chip_index2,
        (Commands::OKIM6295Write { register: register1, value: value1, chip_index: chip_index1 }, Commands::OKIM6295Write { register: register2, value: value2, chip_index: chip_index2 }) => register1 == register2 && value1 == value2 && chip_index1 == chip_index2,
        (Commands::HuC6280Write { register: register1, value: value1, chip_index: chip_index1 }, Commands::HuC6280Write { register: register2, value: value2, chip_index: chip_index2 }) => register1 == register2 && value1 == value2 && chip_index1 == chip_index2,
        (Commands::K053260Write { register: register1, value: value1, chip_index: chip_index1 }, Commands::K053260Write { register: register2, value: value2, chip_index: chip_index2 }) => register1 == register2 && value1 == value2 && chip_index1 == chip_index2,
        (Commands::PokeyWrite { register: register1, value: value1, chip_index: chip_index1 }, Commands::PokeyWrite { register: register2, value: value2, chip_index: chip_index2 }) => register1 == register2 && value1 == value2 && chip_index1 == chip_index2,
        (Commands::WonderSwanWrite { register: register1, value: value1, chip_index: chip_index1 }, Commands::WonderSwanWrite { register: register2, value: value2, chip_index: chip_index2 }) => register1 == register2 && value1 == value2 && chip_index1 == chip_index2,
        (Commands::SAA1099Write { register: register1, value: value1, chip_index: chip_index1 }, Commands::SAA1099Write { register: register2, value: value2, chip_index: chip_index2 }) => register1 == register2 && value1 == value2 && chip_index1 == chip_index2,
        (Commands::ES5506Write { register: register1, value: value1, chip_index: chip_index1 }, Commands::ES5506Write { register: register2, value: value2, chip_index: chip_index2 }) => register1 == register2 && value1 == value2 && chip_index1 == chip_index2,
        (Commands::GA20Write { register: register1, value: value1, chip_index: chip_index1 }, Commands::GA20Write { register: register2, value: value2, chip_index: chip_index2 }) => register1 == register2 && value1 == value2 && chip_index1 == chip_index2,
        (Commands::SegaPCMWrite { offset: offset1, value: value1 }, Commands::SegaPCMWrite { offset: offset2, value: value2 }) => offset1 == offset2 && value1 == value2,
        (Commands::MultiPCMSetBank { channel: channel1, offset: offset1 }, Commands::MultiPCMSetBank { channel: channel2, offset: offset2 }) => channel1 == channel2 && offset1 == offset2,
        (Commands::QSoundWrite { register: register1, value: value1 }, Commands::QSoundWrite { register: register2, value: value2 }) => register1 == register2 && value1 == value2,
        (Commands::SCSPWrite { offset: offset1, value: value1 }, Commands::SCSPWrite { offset: offset2, value: value2 }) => offset1 == offset2 && value1 == value2,
        (Commands::WonderSwanWrite16 { offset: offset1, value: value1 }, Commands::WonderSwanWrite16 { offset: offset2, value: value2 }) => offset1 == offset2 && value1 == value2,
        (Commands::VSUWrite { offset: offset1, value: value1 }, Commands::VSUWrite { offset: offset2, value: value2 }) => offset1 == offset2 && value1 == value2,
        (Commands::X1010Write { offset: offset1, value: value1 }, Commands::X1010Write { offset: offset2, value: value2 }) => offset1 == offset2 && value1 == value2,
        (Commands::YMF278BWrite { port: port1, register: register1, value: value1 }, Commands::YMF278BWrite { port: port2, register: register2, value: value2 }) => port1 == port2 && register1 == register2 && value1 == value2,
        (Commands::YMF271Write { port: port1, register: register1, value: value1 }, Commands::YMF271Write { port: port2, register: register2, value: value2 }) => port1 == port2 && register1 == register2 && value1 == value2,
        (Commands::SCC1Write { port: port1, register: register1, value: value1 }, Commands::SCC1Write { port: port2, register: register2, value: value2 }) => port1 == port2 && register1 == register2 && value1 == value2,
        (Commands::K054539Write { register: register1, value: value1 }, Commands::K054539Write { register: register2, value: value2 }) => register1 == register2 && value1 == value2,
        (Commands::C140Write { register: register1, value: value1 }, Commands::C140Write { register: register2, value: value2 }) => register1 == register2 && value1 == value2,
        (Commands::ES5503Write { register: register1, value: value1 }, Commands::ES5503Write { register: register2, value: value2 }) => register1 == register2 && value1 == value2,
        (Commands::ES5506Write16 { register: register1, value: value1 }, Commands::ES5506Write16 { register: register2, value: value2 }) => register1 == register2 && value1 == value2,
        (Commands::SeekPCM { offset: offset1 }, Commands::SeekPCM { offset: offset2 }) => offset1 == offset2,
        (Commands::C352Write { register: register1, value: value1 }, Commands::C352Write { register: register2, value: value2 }) => register1 == register2 && value1 == value2,
        (Commands::RF5C68WriteOffset { offset: offset1, value: value1 }, Commands::RF5C68WriteOffset { offset: offset2, value: value2 }) => offset1 == offset2 && value1 == value2,
        (Commands::RF5C164WriteOffset { offset: offset1, value: value1 }, Commands::RF5C164WriteOffset { offset: offset2, value: value2 }) => offset1 == offset2 && value1 == value2,
        _ => false,
    }
}

/// Whether two instructions are the same.
pub open spec fn instructions_same(a: ExtendedInstructionSet, b: ExtendedInstructionSet) -> bool {
    match (a, b) {
        (ExtendedInstructionSet::StartFile, ExtendedInstructionSet::StartFile) => true,
        (ExtendedInstructionSet::EndHeader, ExtendedInstructionSet::EndHeader) => true,
        (ExtendedInstructionSet::SetChip(p1), ExtendedInstructionSet::SetChip(p2)) => p1 == p2,
        (ExtendedInstructionSet::VgmCommand(c1), ExtendedInstructionSet::VgmCommand(c2)) => commands_same(c1, c2),
        _ => false,
    }
}

/// Whether two byte vectors hold the same bytes.
fn same_bytes(a: &Vec<u8>, b: &Vec<u8>) -> (r: bool)
    ensures
        r == (a@ == b@),
{
    if a.len() != b.len() {
        return false;
    }
    let mut i: usize = 0;
    while i < a.len()
        invariant
            a@.len() == b@.len(),
            i <= a@.len(),
            forall|j: int| 0 <= j < i ==> a@[j] == b@[j],
        decreases a@.len() - i,
    {
        if a[i] != b[i] {
            return false;
        }
        i += 1;
    }
    assert(a@ =~= b@);
    true
}

/// Whether two data block contents are the same.
fn same_content(a: &DataBlockContent, b: &DataBlockContent) -> (r: bool)
    ensures
        r == contents_same(*a, *b),
{
    match (a, b) {
        (
            DataBlockContent::UncompressedStream { chip_type: c1, data: d1 },
            DataBlockContent::UncompressedStream { chip_type: c2, data: d2 },
        ) => *c1 == *c2 && same_bytes(d1, d2),
        (
            DataBlockContent::CompressedStream {
                chip_type: c1,
                compression: k1,
                uncompressed_size: u1,
                data: d1,
            },
            DataBlockContent::CompressedStream {
                chip_type: c2,
                compression: k2,
                uncompressed_size: u2,
                data: d2,
            },
        ) => *c1 == *c2 && *k1 == *k2 && *u1 == *u2 && same_bytes(d1, d2),
        (
            DataBlockContent::DecompressionTable {
                compression_type: t1,
                sub_type: s1,
                bits_decompressed: a1,
                bits_compressed: b1,
                value_count: v1,
                table_data: d1,
            },
            DataBlockContent::DecompressionTable {
                compression_type: t2,
                sub_type: s2,
                bits_decompressed: a2,
                bits_compressed: b2,
                value_count: v2,
                table_data: d2,
            },
        ) => *t1 == *t2 && *s1 == *s2 && *a1 == *a2 && *b1 == *b2 && *v1 == *v2 && same_bytes(d1, d2),
        (
            DataBlockContent::ROMDump { chip_type: c1, total_size: t1, start_address: s1, data: d1 },
            DataBlockContent::ROMDump { chip_type: c2, total_size: t2, start_address: s2, data: d2 },
        ) => *c1 == *c2 && *t1 == *t2 && *s1 == *s2 && same_bytes(d1, d2),
        (
            DataBlockContent::RAMWriteSmall { chip_type: c1, start_address: s1, data: d1 },
            DataBlockContent::RAMWriteSmall { chip_type: c2, start_address: s2, data: d2 },
        ) => *c1 == *c2 && *s1 == *s2 && same_bytes(d1, d2),
        (
            DataBlockContent::RAMWriteLarge { chip_type: c1, start_address: s1, data: d1 },
            DataBlockContent::RAMWriteLarge { chip_type: c2, start_address: s2, data: d2 },
        ) => *c1 == *c2 && *s1 == *s2 && same_bytes(d1, d2),
        (DataBlockContent::Unknown { data: d1 }, DataBlockContent::Unknown { data: d2 }) => same_bytes(
            d1,
            d2,
        ),
        _ => false,
    }
}

/// Whether two commands are the same.
fn same_command(a: &Commands, b: &Commands) -> (r: bool)
    ensures
        r == commands_same(*a, *b),
{
    match (a, b) {
        (Commands::AY8910StereoMask { value: value1 }, Commands::AY8910StereoMask { value: value2 }) => *value1 == *value2,
        (Commands::GameGearPSGStereo { value: value1, chip_index: chip_index1 }, Commands::GameGearPSGStereo { value: value2, chip_index: chip_index2 }) => *value1 == *value2 && *chip_index1 == *chip_index2,
        (Commands::PSGWrite { value: value1, chip_index: chip_index1 }, Commands::PSGWrite { value: value2, chip_index: chip_index2 }) => *value1 == *value2 && *chip_index1 == *chip_index2,
        (Commands::YM2413Write { register: register1, value: value1, chip_index: chip_index1 }, Commands::YM2413Write { register: register2, value: value2, chip_index: chip_index2 }) => *register1 == *register2 && *value1 == *value2 && *chip_index1 == *chip_index2,
        (Commands::YM2612Port0Write { register: register1, value: value1, chip_index: chip_index1 }, Commands::YM2612Port0Write { register: register2, value: value2, chip_index: chip_index2 }) => *register1 == *register2 && *value1 == *value2 && *chip_index1 == *chip_index2,
        (Commands::YM2612Port1Write { register: register1, value: value1, chip_index: chip_index1 }, Commands::YM2612Port1Write { register: register2, value: value2, chip_index: chip_index2 }) => *register1 == *register2 && *value1 == *value2 && *chip_index1 == *chip_index2,
        (Commands::YM2151Write { register: register1, value: value1, chip_index: chip_index1 }, Commands::YM2151Write { register: register2, value: value2, chip_index: chip_index2 }) => *register1 == *register2 && *value1 == *value2 && *chip_index1 == *chip_index2,
        (Commands::YM2203Write { register: register1, value: value1, chip_index: chip_index1 }, Commands::YM2203Write { register: register2, value: value2, chip_index: chip_index2 }) => *register1 == *register2 && *value1 == *value2 && *chip_index1 == *chip_index2,
        (Commands::YM2608Port0Write { register: register1, value: value1, chip_index: chip_index1 }, Commands::YM2608Port0Write { register: register2, value: value2, chip_index: chip_index2 }) => *register1 == *register2 && *value1 == *value2 && *chip_index1 == *chip_index2,
        (Commands::YM2608Port1Write { register: register1, value: value1, chip_index: chip_index1 }, Commands::YM2608Port1Write { register: register2, value: value2, chip_index: chip_index2 }) => *register1 == *register2 && *value1 == *value2 && *chip_index1 == *chip_index2,
        (Commands::YM2610Port0Write { register: register1, value: value1, chip_index: chip_index1 }, Commands::YM2610Port0Write { register: register2, value: value2, chip_index: chip_index2 }) => *register1 == *register2 && *value1 == *value2 && *chip_index1 == *chip_index2,
        (Commands::YM2610Port1Write { register: register1, value: value1, chip_index: chip_index1 }, Commands::YM2610Port1Write { register: register2, value: value2, chip_index: chip_index2 }) => *register1 == *register2 && *value1 == *value2 && *chip_index1 == *chip_index2,
        (Commands::YM3812Write { register: register1, value: value1, chip_index: chip_index1 }, Commands::YM3812Write { register: register2, value: value2, chip_index: chip_index2 }) => *register1 == *register2 && *value1 == *value2 && *chip_index1 == *chip_index2,
        (Commands::YM3526Write { register: register1, value: value1, chip_index: chip_index1 }, Commands::YM3526Write { register: register2, value: value2, chip_index: chip_index2 }) => *register1 == *register2 && *value1 == *value2 && *chip_index1 == *chip_index2,
        (Commands::Y8950Write { register: register1, value: value1, chip_index: chip_index1 }, Commands::Y8950Write { register: register2, value: value2, chip_index: chip_index2 }) => *register1 == *register2 && *value1 == *value2 && *chip_index1 == *chip_index2,
        (Commands::YMZ280BWrite { register: register1, value: value1, chip_index: chip_index1 }, Commands::YMZ280BWrite { register: register2, value: value2, chip_index: chip_index2 }) => *register1 == *register2 && *value1 == *value2 && *chip_index1 == *chip_index2,
        (Commands::YMF262Port0Write { register: register1, value: value1, chip_index: chip_index1 }, Commands::YMF262Port0Write { register: register2, value: value2, chip_index: chip_index2 }) => *register1 == *register2 && *value1 == *value2 && *chip_index1 == *chip_index2,
        (Commands::YMF262Port1Write { register: register1, value: value1, chip_index: chip_index1 }, Commands::YMF262Port1Write { register: register2, value: value2, chip_index: chip_index2 }) => *register1 == *register2 && *value1 == *value2 && *chip_index1 == *chip_index2,
        (Commands::WaitNSamples { n: n1 }, Commands::WaitNSamples { n: n2 }) => *n1 == *n2,
        (Commands::Wait735Samples, Commands::Wait735Samples) => true,
        (Commands::Wait882Samples, Commands::Wait882Samples) => true,
        (Commands::EndOfSoundData, Commands::EndOfSoundData) => true,
        (Commands::DataBlock { block_type: block_type1, data: data1 }, Commands::DataBlock { block_type: block_type2, data: data2 }) => *block_type1 == *block_type2 && same_content(data1, data2),
        (Commands::PCMRAMWrite { chip_type: chip_type1, read_offset: read_offset1, write_offset: write_offset1, size: size1, data: data1 }, Commands::PCMRAMWrite { chip_type: chip_type2, read_offset: read_offset2, write_offset: write_offset2, size: size2, data: data2 }) => *chip_type1 == *chip_type2 && *read_offset1 == *read_offset2 && *write_offset1 == *write_offset2 && *size1 == *size2 && same_bytes(data1, data2),
        (Commands::WaitNSamplesPlus1 { n: n1 }, Commands::WaitNSamplesPlus1 { n: n2 }) => *n1 == *n2,
        (Commands::YM2612Port0Address2AWriteWait { n: n1 }, Commands::YM2612Port0Address2AWriteWait { n: n2 }) => *n1 == *n2,
        (Commands::DACStreamSetupControl { stream_id: stream_id1, chip_type: chip_type1, port: port1, command: command1, chip_index: chip_index1 }, Commands::DACStreamSetupControl { stream_id: stream_id2, chip_type: chip_type2, port: port2, command: command2, chip_index: chip_index2 }) => *stream_id1 == *stream_id2 && *chip_type1 == *chip_type2 && *port1 == *port2 && *command1 == *command2 && *chip_index1 == *chip_index2,
        (Commands::DACStreamSetData { stream_id: stream_id1, data_bank_id: data_bank_id1, step_size: step_size1, step_base: step_base1 }, Commands::DACStreamSetData { stream_id: stream_id2, data_bank_id: data_bank_id2, step_size: step_size2, step_base: step_base2 }) => *stream_id1 == *stream_id2 && *data_bank_id1 == *data_bank_id2 && *step_size1 == *step_size2 && *step_base1 == *step_base2,
        (Commands::DACStreamSetFrequency { stream_id: stream_id1, frequency: frequency1 }, Commands::DACStreamSetFrequency { stream_id: stream_id2, frequency: frequency2 }) => *stream_id1 == *stream_id2 && *frequency1 == *frequency2,
        (Commands::DACStreamStart { stream_id: stream_id1, data_start_offset: data_start_offset1, length_mode: length_mode1, data_length: data_length1 }, Commands::DACStreamStart { stream_id: stream_id2, data_start_offset: data_start_offset2, length_mode: length_mode2, data_length: data_length2 }) => *stream_id1 == *stream_id2 && *data_start_offset1 == *data_start_offset2 && *length_mode1 == *length_mode2 && *data_length1 == *data_length2,
        (Commands::DACStreamStop { stream_id: stream_id1 }, Commands::DACStreamStop { stream_id: stream_id2 }) => *stream_id1 == *stream_id2,
        (Commands::DACStreamStartFast { stream_id: stream_id1, block_id: block_id1, flags: flags1 }, Commands::DACStreamStartFast { stream_id: stream_id2, block_id: block_id2, flags: flags2 }) => *stream_id1 == *stream_id2 && *block_id1 == *block_id2 && *flags1 == *flags2,
        (Commands::AY8910Write { register: register1, value: value1, chip_index: chip_index1 }, Commands::AY8910Write { register: register2, value: value2, chip_index: chip_index2 }) => *register1 == *register2 && *value1 == *value2 && *chip_index1 == *chip_index2,
        (Commands::RF5C68Write { register: register1, value: value1 }, Commands::RF5C68Write { register: register2, value: value2 }) => *register1 == *register2 && *value1 == *value2,
        (Commands::RF5C164Write { register: register1, value: value1 }, Commands::RF5C164Write { register: register2, value: value2 }) => *register1 == *register2 && *value1 == *value2,
        (Commands::PWMWrite { register: register1, value: value1 }, Commands::PWMWrite { register: register2, value: value2 }) => *register1 == *register2 && *value1 == *value2,
        (Commands::GameBoyDMGWrite { register: register1, value: value1, chip_index: chip_index1 }, Commands::GameBoyDMGWrite { register: register2, value: value2, chip_index: chip_index2 }) => *register1 == *register2 && *value1 == *value2 && *chip_index1 == *chip_index2,
        (Commands::NESAPUWrite { register: register1, value: value1, chip_index: chip_index1 }, Commands::NESAPUWrite { register: register2, value: value2, chip_index: chip_index2 }) => *register1 == *register2 && *value1 == *value2 && *chip_index1 == *chip_index2,
        (Commands::MultiPCMWrite { register: register1, value: value1, chip_index: chip_index1 }, Commands::MultiPCMWrite { register: register2, value: value2, chip_index: chip_index2 }) => *register1 == *register2 && *value1 == *value2 && *chip_index1 == *chip_index2,
        (Commands::uPD7759Write { register: register1, value: value1, chip_index: chip_index1 }, Commands::uPD7759Write { register: register2, value: value2, chip_index: chip_index2 }) => *register1 == *register2 && *value1 == *value2 && *chip_index1 == *chip_index2,
        (Commands::OKIM6258Write { register: register1, value: value1, chip_index: chip_index1 }, Commands::OKIM6258Write { register: register2, value: value2, chip_index: chip_index2 }) => *register1 == *register2 && *value1 == *value2 && *chip_index1 == *chip_index2,
        (Commands::OKIM6295Write { register: register1, value: value1, chip_index: chip_index1 }, Commands::OKIM6295Write { register: register2, value: value2, chip_index: chip_index2 }) => *register1 == *register2 && *value1 == *value2 && *chip_index1 == *chip_index2,
        (Commands::HuC6280Write { register: register1, value: value1, chip_index: chip_index1 }, Commands::HuC6280Write { register: register2, value: value2, chip_index: chip_index2 }) => *register1 == *register2 && *value1 == *value2 && *chip_index1 == *chip_index2,
        (Commands::K053260Write { register: register1, value: value1, chip_index: chip_index1 }, Commands::K053260Write { register: register2, value: value2, chip_index: chip_index2 }) => *register1 == *register2 && *value1 == *value2 && *chip_index1 == *chip_index2,
        (Commands::PokeyWrite { register: register1, value: value1, chip_index: chip_index1 }, Commands::PokeyWrite { register: register2, value: value2, chip_index: chip_index2 }) => *register1 == *register2 && *value1 == *value2 && *chip_index1 == *chip_index2,
        (Commands::WonderSwanWrite { register: register1, value: value1, chip_index: chip_index1 }, Commands::WonderSwanWrite { register: register2, value: value2, chip_index: chip_index2 }) => *register1 == *register2 && *value1 == *value2 && *chip_index1 == *chip_index2,
        (Commands::SAA1099Write { register: register1, value: value1, chip_index: chip_index1 }, Commands::SAA1099Write { register: register2, value: value2, chip_index: chip_index2 }) => *register1 == *register2 && *value1 == *value2 && *chip_index1 == *chip_index2,
        (Commands::ES5506Write { register: register1, value: value1, chip_index: chip_index1 }, Commands::ES5506Write { register: register2, value: value2, chip_index: chip_index2 }) => *register1 == *register2 && *value1 == *value2 && *chip_index1 == *chip_index2,
        (Commands::GA20Write { register: register1, value: value1, chip_index: chip_index1 }, Commands::GA20Write { register: register2, value: value2, chip_index: chip_index2 }) => *register1 == *register2 && *value1 == *value2 && *chip_index1 == *chip_index2,
        (Commands::SegaPCMWrite { offset: offset1, value: value1 }, Commands::SegaPCMWrite { offset: offset2, value: value2 }) => *offset1 == *offset2 && *value1 == *value2,
        (Commands::MultiPCMSetBank { channel: channel1, offset: offset1 }, Commands::MultiPCMSetBank { channel: channel2, offset: offset2 }) => *channel1 == *channel2 && *offset1 == *offset2,
        (Commands::QSoundWrite { register: register1, value: value1 }, Commands::QSoundWrite { register: register2, value: value2 }) => *register1 == *register2 && *value1 == *value2,
        (Commands::SCSPWrite { offset: offset1, value: value1 }, Commands::SCSPWrite { offset: offset2, value: value2 }) => *offset1 == *offset2 && *value1 == *value2,
        (Commands::WonderSwanWrite16 { offset: offset1, value: value1 }, Commands::WonderSwanWrite16 { offset: offset2, value: value2 }) => *offset1 == *offset2 && *value1 == *value2,
        (Commands::VSUWrite { offset: offset1, value: value1 }, Commands::VSUWrite { offset: offset2, value: value2 }) => *offset1 == *offset2 && *value1 == *value2,
        (Commands::X1010Write { offset: offset1, value: value1 }, Commands::X1010Write { offset: offset2, value: value2 }) => *offset1 == *offset2 && *value1 == *value2,
        (Commands::YMF278BWrite { port: port1, register: register1, value: value1 }, Commands::YMF278BWrite { port: port2, register: register2, value: value2 }) => *port1 == *port2 && *register1 == *register2 && *value1 == *value2,
        (Commands::YMF271Write { port: port1, register: register1, value: value1 }, Commands::YMF271Write { port: port2, register: register2, value: value2 }) => *port1 == *port2 && *register1 == *register2 && *value1 == *value2,
        (Commands::SCC1Write { port: port1, register: register1, value: value1 }, Commands::SCC1Write { port: port2, register: register2, value: value2 }) => *port1 == *port2 && *register1 == *register2 && *value1 == *value2,
        (Commands::K054539Write { register: register1, value: value1 }, Commands::K054539Write { register: register2, value: value2 }) => *register1 == *register2 && *value1 == *value2,
        (Commands::C140Write { register: register1, value: value1 }, Commands::C140Write { register: register2, value: value2 }) => *register1 == *register2 && *value1 == *value2,
        (Commands::ES5503Write { register: register1, value: value1 }, Commands::ES5503Write { register: register2, value: value2 }) => *register1 == *register2 && *value1 == *value2,
        (Commands::ES5506Write16 { register: register1, value: value1 }, Commands::ES5506Write16 { register: register2, value: value2 }) => *register1 == *register2 && *value1 == *value2,
        (Commands::SeekPCM { offset: offset1 }, Commands::SeekPCM { offset: offset2 }) => *offset1 == *offset2,
        (Commands::C352Write { register: register1, value: value1 }, Commands::C352Write { register: register2, value: value2 }) => *register1 == *register2 && *value1 == *value2,
        (Commands::RF5C68WriteOffset { offset: offset1, value: value1 }, Commands::RF5C68WriteOffset { offset: offset2, value: value2 }) => *offset1 == *offset2 && *value1 == *value2,
        (Commands::RF5C164WriteOffset { offset: offset1, value: value1 }, Commands::RF5C164WriteOffset { offset: offset2, value: value2 }) => *offset1 == *offset2 && *value1 == *value2,
        _ => false,
    }
}

/// Whether two instructions are the same.
fn same_instruction(a: &ExtendedInstructionSet, b: &ExtendedInstructionSet) -> (r: bool)
    ensures
        r == instructions_same(*a, *b),
{
    match (a, b) {
        (ExtendedInstructionSet::StartFile, ExtendedInstructionSet::StartFile) => true,
        (ExtendedInstructionSet::EndHeader, ExtendedInstructionSet::EndHeader) => true,
        (ExtendedInstructionSet::SetChip(p1), ExtendedInstructionSet::SetChip(p2)) => *p1 == *p2,
        (ExtendedInstructionSet::VgmCommand(c1), ExtendedInstructionSet::VgmCommand(c2)) => same_command(c1, c2),
        _ => false,
    }
}


/// A copy of a data block content.
fn copy_content(c: &DataBlockContent) -> (r: DataBlockContent)
    ensures
        contents_same(r, *c),
{
    let r = match c {
        DataBlockContent::UncompressedStream { chip_type, data } => DataBlockContent::UncompressedStream { chip_type: *chip_type, data: data.clone() },
        DataBlockContent::CompressedStream { chip_type, compression, uncompressed_size, data } => DataBlockContent::CompressedStream { chip_type: *chip_type, compression: *compression, uncompressed_size: *uncompressed_size, data: data.clone() },
        DataBlockContent::DecompressionTable { compression_type, sub_type, bits_decompressed, bits_compressed, value_count, table_data } => DataBlockContent::DecompressionTable { compression_type: *compression_type, sub_type: *sub_type, bits_decompressed: *bits_decompressed, bits_compressed: *bits_compressed, value_count: *value_count, table_data: table_data.clone() },
        DataBlockContent::ROMDump { chip_type, total_size, start_address, data } => DataBlockContent::ROMDump { chip_type: *chip_type, total_size: *total_size, start_address: *start_address, data: data.clone() },
        DataBlockContent::RAMWriteSmall { chip_type, start_address, data } => DataBlockContent::RAMWriteSmall { chip_type: *chip_type, start_address: *start_address, data: data.clone() },
        DataBlockContent::RAMWriteLarge { chip_type, start_address, data } => DataBlockContent::RAMWriteLarge { chip_type: *chip_type, start_address: *start_address, data: data.clone() },
        DataBlockContent::Unknown { data } => DataBlockContent::Unknown { data: data.clone() },
    };
    assert(contents_same(r, *c));
    r
}

/// A copy of a command.
fn copy_command(c: &Commands) -> (r: Commands)
    ensures
        commands_same(r, *c),
{
    match c {
        Commands::AY8910StereoMask { value } => Commands::AY8910StereoMask { value: *value },
        Commands::GameGearPSGStereo { value, chip_index } => Commands::GameGearPSGStereo { value: *value, chip_index: *chip_index },
        Commands::PSGWrite { value, chip_index } => Commands::PSGWrite { value: *value, chip_index: *chip_index },
        Commands::YM2413Write { register, value, chip_index } => Commands::YM2413Write { register: *register, value: *value, chip_index: *chip_index },
        Commands::YM2612Port0Write { register, value, chip_index } => Commands::YM2612Port0Write { register: *register, value: *value, chip_index: *chip_index },
        Commands::YM2612Port1Write { register, value, chip_index } => Commands::YM2612Port1Write { register: *register, value: *value, chip_index: *chip_index },
        Commands::YM2151Write { register, value, chip_index } => Commands::YM2151Write { register: *register, value: *value, chip_index: *chip_index },
        Commands::YM2203Write { register, value, chip_index } => Commands::YM2203Write { register: *register, value: *value, chip_index: *chip_index },
        Commands::YM2608Port0Write { register, value, chip_index } => Commands::YM2608Port0Write { register: *register, value: *value, chip_index: *chip_index },
        Commands::YM2608Port1Write { register, value, chip_index } => Commands::YM2608Port1Write { register: *register, value: *value, chip_index: *chip_index },
        Commands::YM2610Port0Write { register, value, chip_index } => Commands::YM2610Port0Write { register: *register, value: *value, chip_index: *chip_index },
        Commands::YM2610Port1Write { register, value, chip_index } => Commands::YM2610Port1Write { register: *register, value: *value, chip_index: *chip_index },
        Commands::YM3812Write { register, value, chip_index } => Commands::YM3812Write { register: *register, value: *value, chip_index: *chip_index },
        Commands::YM3526Write { register, value, chip_index } => Commands::YM3526Write { register: *register, value: *value, chip_index: *chip_index },
        Commands::Y8950Write { register, value, chip_index } => Commands::Y8950Write { register: *register, value: *value, chip_index: *chip_index },
        Commands::YMZ280BWrite { register, value, chip_index } => Commands::YMZ280BWrite { register: *register, value: *value, chip_index: *chip_index },
        Commands::YMF262Port0Write { register, value, chip_index } => Commands::YMF262Port0Write { register: *register, value: *value, chip_index: *chip_index },
        Commands::YMF262Port1Write { register, value, chip_index } => Commands::YMF262Port1Write { register: *register, value: *value, chip_index: *chip_index },
        Commands::WaitNSamples { n } => Commands::WaitNSamples { n: *n },
        Commands::Wait735Samples => Commands::Wait735Samples,
        Commands::Wait882Samples => Commands::Wait882Samples,
        Commands::EndOfSoundData => Commands::EndOfSoundData,
        Commands::DataBlock { block_type, data } => Commands::DataBlock { block_type: *block_type, data: copy_content(data) },
        Commands::PCMRAMWrite { chip_type, read_offset, write_offset, size, data } => Commands::PCMRAMWrite { chip_type: *chip_type, read_offset: *read_offset, write_offset: *write_offset, size: *size, data: data.clone() },
        Commands::WaitNSamplesPlus1 { n } => Commands::WaitNSamplesPlus1 { n: *n },
        Commands::YM2612Port0Address2AWriteWait { n } => Commands::YM2612Port0Address2AWriteWait { n: *n },
        Commands::DACStreamSetupControl { stream_id, chip_type, port, command, chip_index } => Commands::DACStreamSetupControl { stream_id: *stream_id, chip_type: *chip_type, port: *port, command: *command, chip_index: *chip_index },
        Commands::DACStreamSetData { stream_id, data_bank_id, step_size, step_base } => Commands::DACStreamSetData { stream_id: *stream_id, data_bank_id: *data_bank_id, step_size: *step_size, step_base: *step_base },
        Commands::DACStreamSetFrequency { stream_id, frequency } => Commands::DACStreamSetFrequency { stream_id: *stream_id, frequency: *frequency },
        Commands::DACStreamStart { stream_id, data_start_offset, length_mode, data_length } => Commands::DACStreamStart { stream_id: *stream_id, data_start_offset: *data_start_offset, length_mode: *length_mode, data_length: *data_length },
        Commands::DACStreamStop { stream_id } => Commands::DACStreamStop { stream_id: *stream_id },
        Commands::DACStreamStartFast { stream_id, block_id, flags } => Commands::DACStreamStartFast { stream_id: *stream_id, block_id: *block_id, flags: *flags },
        Commands::AY8910Write { register, value, chip_index } => Commands::AY8910Write { register: *register, value: *value, chip_index: *chip_index },
        Commands::RF5C68Write { register, value } => Commands::RF5C68Write { register: *register, value: *value },
        Commands::RF5C164Write { register, value } => Commands::RF5C164Write { register: *register, value: *value },
        Commands::PWMWrite { register, value } => Commands::PWMWrite { register: *register, value: *value },
        Commands::GameBoyDMGWrite { register, value, chip_index } => Commands::GameBoyDMGWrite { register: *register, value: *value, chip_index: *chip_index },
        Commands::NESAPUWrite { register, value, chip_index } => Commands::NESAPUWrite { register: *register, value: *value, chip_index: *chip_index },
        Commands::MultiPCMWrite { register, value, chip_index } => Commands::MultiPCMWrite { register: *register, value: *value, chip_index: *chip_index },
        Commands::uPD7759Write { register, value, chip_index } => Commands::uPD7759Write { register: *register, value: *value, chip_index: *chip_index },
        Commands::OKIM6258Write { register, value, chip_index } => Commands::OKIM6258Write { register: *register, value: *value, chip_index: *chip_index },
        Commands::OKIM6295Write { register, value, chip_index } => Commands::OKIM6295Write { register: *register, value: *value, chip_index: *chip_index },
        Commands::HuC6280Write { register, value, chip_index } => Commands::HuC6280Write { register: *register, value: *value, chip_index: *chip_index },
        Commands::K053260Write { register, value, chip_index } => Commands::K053260Write { register: *register, value: *value, chip_index: *chip_index },
        Commands::PokeyWrite { register, value, chip_index } => Commands::PokeyWrite { register: *register, value: *value, chip_index: *chip_index },
        Commands::WonderSwanWrite { register, value, chip_index } => Commands::WonderSwanWrite { register: *register, value: *value, chip_index: *chip_index },
        Commands::SAA1099Write { register, value, chip_index } => Commands::SAA1099Write { register: *register, value: *value, chip_index: *chip_index },
        Commands::ES5506Write { register, value, chip_index } => Commands::ES5506Write { register: *register, value: *value, chip_index: *chip_index },
        Commands::GA20Write { register, value, chip_index } => Commands::GA20Write { register: *register, value: *value, chip_index: *chip_index },
        Commands::SegaPCMWrite { offset, value } => Commands::SegaPCMWrite { offset: *offset, value: *value },
        Commands::MultiPCMSetBank { channel, offset } => Commands::MultiPCMSetBank { channel: *channel, offset: *offset },
        Commands::QSoundWrite { register, value } => Commands::QSoundWrite { register: *register, value: *value },
        Commands::SCSPWrite { offset, value } => Commands::SCSPWrite { offset: *offset, value: *value },
        Commands::WonderSwanWrite16 { offset, value } => Commands::WonderSwanWrite16 { offset: *offset, value: *value },
        Commands::VSUWrite { offset, value } => Commands::VSUWrite { offset: *offset, value: *value },
        Commands::X1010Write { offset, value } => Commands::X1010Write { offset: *offset, value: *value },
        Commands::YMF278BWrite { port, register, value } => Commands::YMF278BWrite { port: *port, register: *register, value: *value },
        Commands::YMF271Write { port, register, value } => Commands::YMF271Write { port: *port, register: *register, value: *value },
        Commands::SCC1Write { port, register, value } => Commands::SCC1Write { port: *port, register: *register, value: *value },
        Commands::K054539Write { register, value } => Commands::K054539Write { register: *register, value: *value },
        Commands::C140Write { register, value } => Commands::C140Write { register: *register, value: *value },
        Commands::ES5503Write { register, value } => Commands::ES5503Write { register: *register, value: *value },
        Commands::ES5506Write16 { register, value } => Commands::ES5506Write16 { register: *register, value: *value },
        Commands::SeekPCM { offset } => Commands::SeekPCM { offset: *offset },
        Commands::C352Write { register, value } => Commands::C352Write { register: *register, value: *value },
        Commands::RF5C68WriteOffset { offset, value } => Commands::RF5C68WriteOffset { offset: *offset, value: *value },
        Commands::RF5C164WriteOffset { offset, value } => Commands::RF5C164WriteOffset { offset: *offset, value: *value },
    }
}

/// A copy of an instruction.
fn copy_instruction(e: &ExtendedInstructionSet) -> (r: ExtendedInstructionSet)
    ensures
        instructions_same(r, *e),
{
    match e {
        ExtendedInstructionSet::StartFile => ExtendedInstructionSet::StartFile,
        ExtendedInstructionSet::EndHeader => ExtendedInstructionSet::EndHeader,
        ExtendedInstructionSet::SetChip(p) => ExtendedInstructionSet::SetChip(*p),
        ExtendedInstructionSet::VgmCommand(c) => ExtendedInstructionSet::VgmCommand(copy_command(c)),
    }
}

/// The chips that a header can set up, each with the clock the header gives
/// it, in the order in which the header lays them out.
pub open spec fn clock_table(h: HeaderData) -> Seq<ChipPayload> {
    seq![
        ChipPayload { system: System::SN76489, clock_value: h.sn76489_clock },
        ChipPayload { system: System::YM2413, clock_value: h.ym2413_clock },
        ChipPayload { system: System::YM2612, clock_value: h.ym2612_clock },
        ChipPayload { system: System::YM2151, clock_value: h.ym2151_clock },
        ChipPayload { system: System::SegaPcm, clock_value: h.sega_pcm_clock },
        ChipPayload { system: System::RF5C68, clock_value: h.rf5_c68_clock },
        ChipPayload { system: System::YM2203, clock_value: h.ym2203_clock },
        ChipPayload { system: System::YM2608, clock_value: h.ym2608_clock },
        ChipPayload { system: System::YM2610, clock_value: h.ym2610_b_clock },
        ChipPayload { system: System::YM3812, clock_value: h.ym3812_clock },
        ChipPayload { system: System::YM3526, clock_value: h.ym3526_clock },
        ChipPayload { system: System::Y8950, clock_value: h.y8950_clock },
        ChipPayload { system: System::YMF262, clock_value: h.ymf262_clock },
        ChipPayload { system: System::YMF278B, clock_value: h.ymf278_b_clock },
        ChipPayload { system: System::YMF271, clock_value: h.ymf271_clock },
        ChipPayload { system: System::YMZ280B, clock_value: h.ymz280_b_clock },
        ChipPayload { system: System::RF5C164, clock_value: h.rf5_c164_clock },
        ChipPayload { system: System::Pwm, clock_value: h.pwm_clock },
        ChipPayload { system: System::AY8910, clock_value: h.ay8910_clock },
        ChipPayload { system: System::GameboyDmg, clock_value: h.gb_dmg_clock },
        ChipPayload { system: System::NesApu, clock_value: h.nes_apu_clock },
        ChipPayload { system: System::MultiPcm, clock_value: h.multi_pcm_clock },
        ChipPayload { system: System::UPD7759, clock_value: h.u_pd7759_clock },
        ChipPayload { system: System::OKIM6258, clock_value: h.okim6258_clock },
        ChipPayload { system: System::OKIM6295, clock_value: h.okim6295_clock },
        ChipPayload { system: System::K051649, clock_value: h.k051649_k052539_clock },
        ChipPayload { system: System::K054539, clock_value: h.k054539_clock },
        ChipPayload { system: System::HuC6280, clock_value: h.hu_c6280_clock },
        ChipPayload { system: System::C140, clock_value: h.c140_clock },
        ChipPayload { system: System::K053260, clock_value: h.k053260_clock },
        ChipPayload { system: System::Pokey, clock_value: h.pokey_clock },
        ChipPayload { system: System::QSound, clock_value: h.qsound_clock },
        ChipPayload { system: System::SCSP, clock_value: h.scsp_clock },
        ChipPayload { system: System::WonderSwan, clock_value: h.wonder_swan_clock },
        ChipPayload { system: System::VSU, clock_value: h.vsu_clock },
        ChipPayload { system: System::SAA1099, clock_value: h.saa1099_clock },
        ChipPayload { system: System::ES5503, clock_value: h.es5503_clock },
        ChipPayload { system: System::ES5506, clock_value: h.es5506_clock },
        ChipPayload { system: System::X1_010, clock_value: h.x1010_clock },
        ChipPayload { system: System::C352, clock_value: h.c352_clock },
        ChipPayload { system: System::GA20, clock_value: h.ga20_clock },
    ]
}

/// The chip instructions for the payloads of `s` whose clock is not zero, in order.
pub open spec fn set_chips(s: Seq<ChipPayload>) -> Seq<ExtendedInstructionSet>
    decreases s.len(),
{
    if s.len() == 0 {
        Seq::empty()
    } else {
        let rest = set_chips(s.drop_last());
        if s.last().clock_value == 0 {
            rest
        } else {
            rest.push(ExtendedInstructionSet::SetChip(s.last()))
        }
    }
}


/// The clock that a header gives chip `sy` in a field of its own (none for
/// the K052539 and the ES5505, which share a field with another chip):
/// `sn76489_clock` for the SN76489, `ym2151_clock` for the YM2151, and so on.
pub open spec fn header_clock_of(h: HeaderData, sy: System) -> Option<u32> {
    match sy {
        System::SN76489 => Some(h.sn76489_clock),
        System::YM2413 => Some(h.ym2413_clock),
        System::YM2612 => Some(h.ym2612_clock),
        System::YM2151 => Some(h.ym2151_clock),
        System::SegaPcm => Some(h.sega_pcm_clock),
        System::RF5C68 => Some(h.rf5_c68_clock),
        System::YM2203 => Some(h.ym2203_clock),
        System::YM2608 => Some(h.ym2608_clock),
        System::YM2610 => Some(h.ym2610_b_clock),
        System::YM3812 => Some(h.ym3812_clock),
        System::YM3526 => Some(h.ym3526_clock),
        System::Y8950 => Some(h.y8950_clock),
        System::YMF262 => Some(h.ymf262_clock),
        System::YMF278B => Some(h.ymf278_b_clock),
        System::YMF271 => Some(h.ymf271_clock),
        System::YMZ280B => Some(h.ymz280_b_clock),
        System::RF5C164 => Some(h.rf5_c164_clock),
        System::Pwm => Some(h.pwm_clock),
        System::AY8910 => Some(h.ay8910_clock),
        System::GameboyDmg => Some(h.gb_dmg_clock),
        System::NesApu => Some(h.nes_apu_clock),
        System::MultiPcm => Some(h.multi_pcm_clock),
        System::UPD7759 => Some(h.u_pd7759_clock),
        System::OKIM6258 => Some(h.okim6258_clock),
        System::OKIM6295 => Some(h.okim6295_clock),
        System::K051649 => Some(h.k051649_k052539_clock),
        System::K054539 => Some(h.k054539_clock),
        System::HuC6280 => Some(h.hu_c6280_clock),
        System::C140 => Some(h.c140_clock),
        System::K053260 => Some(h.k053260_clock),
        System::Pokey => Some(h.pokey_clock),
        System::QSound => Some(h.qsound_clock),
        System::SCSP => Some(h.scsp_clock),
        System::WonderSwan => Some(h.wonder_swan_clock),
        System::VSU => Some(h.vsu_clock),
        System::SAA1099 => Some(h.saa1099_clock),
        System::ES5503 => Some(h.es5503_clock),
        System::ES5506 => Some(h.es5506_clock),
        System::X1_010 => Some(h.x1010_clock),
        System::C352 => Some(h.c352_clock),
        System::GA20 => Some(h.ga20_clock),
        _ => None,
    }
}

/// The instructions for the payloads of `s` are those of its payloads with
/// a clock, and each of those payloads has one.
proof fn lemma_set_chips_members(s: Seq<ChipPayload>)
    ensures
        forall|k: int|
            0 <= k < set_chips(s).len() ==> exists|j: int|
                0 <= j < s.len() && s[j].clock_value != 0 && #[trigger] set_chips(s)[k]
                    == ExtendedInstructionSet::SetChip(s[j]),
        forall|j: int|
            0 <= j < s.len() && #[trigger] s[j].clock_value != 0 ==> exists|k: int|
                0 <= k < set_chips(s).len() && set_chips(s)[k] == ExtendedInstructionSet::SetChip(s[j]),
    decreases s.len(),
{
    if s.len() > 0 {
        let p = s.drop_last();
        lemma_set_chips_members(p);
        let rest = set_chips(p);
        assert forall|k: int| 0 <= k < set_chips(s).len() implies exists|j: int|
            0 <= j < s.len() && s[j].clock_value != 0 && #[trigger] set_chips(s)[k]
                == ExtendedInstructionSet::SetChip(s[j]) by {
            if k < rest.len() {
                let j = choose|j: int|
                    0 <= j < p.len() && p[j].clock_value != 0 && #[trigger] rest[k]
                        == ExtendedInstructionSet::SetChip(p[j]);
                assert(s[j] == p[j]);
            } else {
                assert(set_chips(s)[k] == ExtendedInstructionSet::SetChip(s[s.len() - 1]));
            }
        }
        assert forall|j: int| 0 <= j < s.len() && #[trigger] s[j].clock_value != 0 implies exists|k: int|
            0 <= k < set_chips(s).len() && set_chips(s)[k] == ExtendedInstructionSet::SetChip(s[j]) by {
            if j < p.len() {
                assert(p[j] == s[j]);
                assert(p[j].clock_value != 0);
                let k = choose|k: int| 0 <= k < rest.len() && rest[k] == ExtendedInstructionSet::SetChip(p[j]);
                assert(set_chips(s)[k] == rest[k]);
            } else {
                assert(set_chips(s)[rest.len() as int] == ExtendedInstructionSet::SetChip(s[j]));
            }
        }
    }
}

/// Each payload of the clock table carries the clock of the header field of
/// its own chip, and each chip with a field of its own has its payload.
proof fn lemma_clock_table_fields(h: HeaderData)
    ensures
        clock_table(h).len() == 41,
        forall|j: int|
            0 <= j < 41 ==> header_clock_of(h, #[trigger] clock_table(h)[j].system) == Some(
                clock_table(h)[j].clock_value,
            ),
{
    let t = clock_table(h);
    assert forall|j: int| 0 <= j < 41 implies header_clock_of(h, #[trigger] t[j].system) == Some(t[j].clock_value) by {
        if j == 0 {
        } else if j == 1 {
        } else if j == 2 {
        } else if j == 3 {
        } else if j == 4 {
        } else if j == 5 {
        } else if j == 6 {
        } else if j == 7 {
        } else if j == 8 {
        } else if j == 9 {
        } else if j == 10 {
        } else if j == 11 {
        } else if j == 12 {
        } else if j == 13 {
        } else if j == 14 {
        } else if j == 15 {
        } else if j == 16 {
        } else if j == 17 {
        } else if j == 18 {
        } else if j == 19 {
        } else if j == 20 {
        } else if j == 21 {
        } else if j == 22 {
        } else if j == 23 {
        } else if j == 24 {
        } else if j == 25 {
        } else if j == 26 {
        } else if j == 27 {
        } else if j == 28 {
        } else if j == 29 {
        } else if j == 30 {
        } else if j == 31 {
        } else if j == 32 {
        } else if j == 33 {
        } else if j == 34 {
        } else if j == 35 {
        } else if j == 36 {
        } else if j == 37 {
        } else if j == 38 {
        } else if j == 39 {
        } else if j == 40 {
        }
    }
}

/// Each chip with a clock field of its own has its payload in the clock table.
proof fn lemma_clock_table_has(h: HeaderData, sy: System)
    requires
        header_clock_of(h, sy) is Some,
    ensures
        exists|j: int|
            0 <= j < clock_table(h).len() && #[trigger] clock_table(h)[j] == (ChipPayload {
                system: sy,
                clock_value: header_clock_of(h, sy)->0,
            }),
{
    let t = clock_table(h);
    match sy {
        System::SN76489 => {
            assert(t[0] == ChipPayload { system: System::SN76489, clock_value: h.sn76489_clock });
        },
        System::YM2413 => {
            assert(t[1] == ChipPayload { system: System::YM2413, clock_value: h.ym2413_clock });
        },
        System::YM2612 => {
            assert(t[2] == ChipPayload { system: System::YM2612, clock_value: h.ym2612_clock });
        },
        System::YM2151 => {
            assert(t[3] == ChipPayload { system: System::YM2151, clock_value: h.ym2151_clock });
        },
        System::SegaPcm => {
            assert(t[4] == ChipPayload { system: System::SegaPcm, clock_value: h.sega_pcm_clock });
        },
        System::RF5C68 => {
            assert(t[5] == ChipPayload { system: System::RF5C68, clock_value: h.rf5_c68_clock });
        },
        System::YM2203 => {
            assert(t[6] == ChipPayload { system: System::YM2203, clock_value: h.ym2203_clock });
        },
        System::YM2608 => {
            assert(t[7] == ChipPayload { system: System::YM2608, clock_value: h.ym2608_clock });
        },
        System::YM2610 => {
            assert(t[8] == ChipPayload { system: System::YM2610, clock_value: h.ym2610_b_clock });
        },
        System::YM3812 => {
            assert(t[9] == ChipPayload { system: System::YM3812, clock_value: h.ym3812_clock });
        },
        System::YM3526 => {
            assert(t[10] == ChipPayload { system: System::YM3526, clock_value: h.ym3526_clock });
        },
        System::Y8950 => {
            assert(t[11] == ChipPayload { system: System::Y8950, clock_value: h.y8950_clock });
        },
        System::YMF262 => {
            assert(t[12] == ChipPayload { system: System::YMF262, clock_value: h.ymf262_clock });
        },
        System::YMF278B => {
            assert(t[13] == ChipPayload { system: System::YMF278B, clock_value: h.ymf278_b_clock });
        },
        System::YMF271 => {
            assert(t[14] == ChipPayload { system: System::YMF271, clock_value: h.ymf271_clock });
        },
        System::YMZ280B => {
            assert(t[15] == ChipPayload { system: System::YMZ280B, clock_value: h.ymz280_b_clock });
        },
        System::RF5C164 => {
            assert(t[16] == ChipPayload { system: System::RF5C164, clock_value: h.rf5_c164_clock });
        },
        System::Pwm => {
            assert(t[17] == ChipPayload { system: System::Pwm, clock_value: h.pwm_clock });
        },
        System::AY8910 => {
            assert(t[18] == ChipPayload { system: System::AY8910, clock_value: h.ay8910_clock });
        },
        System::GameboyDmg => {
            assert(t[19] == ChipPayload { system: System::GameboyDmg, clock_value: h.gb_dmg_clock });
        },
        System::NesApu => {
            assert(t[20] == ChipPayload { system: System::NesApu, clock_value: h.nes_apu_clock });
        },
        System::MultiPcm => {
            assert(t[21] == ChipPayload { system: System::MultiPcm, clock_value: h.multi_pcm_clock });
        },
        System::UPD7759 => {
            assert(t[22] == ChipPayload { system: System::UPD7759, clock_value: h.u_pd7759_clock });
        },
        System::OKIM6258 => {
            assert(t[23] == ChipPayload { system: System::OKIM6258, clock_value: h.okim6258_clock });
        },
        System::OKIM6295 => {
            assert(t[24] == ChipPayload { system: System::OKIM6295, clock_value: h.okim6295_clock });
        },
        System::K051649 => {
            assert(t[25] == ChipPayload { system: System::K051649, clock_value: h.k051649_k052539_clock });
        },
        System::K054539 => {
            assert(t[26] == ChipPayload { system: System::K054539, clock_value: h.k054539_clock });
        },
        System::HuC6280 => {
            assert(t[27] == ChipPayload { system: System::HuC6280, clock_value: h.hu_c6280_clock });
        },
        System::C140 => {
            assert(t[28] == ChipPayload { system: System::C140, clock_value: h.c140_clock });
        },
        System::K053260 => {
            assert(t[29] == ChipPayload { system: System::K053260, clock_value: h.k053260_clock });
        },
        System::Pokey => {
            assert(t[30] == ChipPayload { system: System::Pokey, clock_value: h.pokey_clock });
        },
        System::QSound => {
            assert(t[31] == ChipPayload { system: System::QSound, clock_value: h.qsound_clock });
        },
        System::SCSP => {
            assert(t[32] == ChipPayload { system: System::SCSP, clock_value: h.scsp_clock });
        },
        System::WonderSwan => {
            assert(t[33] == ChipPayload { system: System::WonderSwan, clock_value: h.wonder_swan_clock });
        },
        System::VSU => {
            assert(t[34] == ChipPayload { system: System::VSU, clock_value: h.vsu_clock });
        },
        System::SAA1099 => {
            assert(t[35] == ChipPayload { system: System::SAA1099, clock_value: h.saa1099_clock });
        },
        System::ES5503 => {
            assert(t[36] == ChipPayload { system: System::ES5503, clock_value: h.es5503_clock });
        },
        System::ES5506 => {
            assert(t[37] == ChipPayload { system: System::ES5506, clock_value: h.es5506_clock });
        },
        System::X1_010 => {
            assert(t[38] == ChipPayload { system: System::X1_010, clock_value: h.x1010_clock });
        },
        System::C352 => {
            assert(t[39] == ChipPayload { system: System::C352, clock_value: h.c352_clock });
        },
        System::GA20 => {
            assert(t[40] == ChipPayload { system: System::GA20, clock_value: h.ga20_clock });
        },
        _ => {},
    }
}


/// Each chip setup instruction names the chip whose header clock field it
/// carries: the payload taken from `ym2151_clock` names the YM2151, the one
/// from `ym2612_clock` the YM2612, and so on (`header_clock_of`); its clock
/// is not zero; and each chip whose own clock field is not zero has its
/// instruction.
pub proof fn lemma_clock_commands_name_their_chips(h: HeaderData)
    ensures
        forall|k: int|
            0 <= k < set_chips(clock_table(h)).len() ==> (#[trigger] set_chips(clock_table(h))[k] matches ExtendedInstructionSet::SetChip(p)
                && p.clock_value != 0 && header_clock_of(h, p.system) == Some(p.clock_value)),
        forall|sy: System|
            #[trigger] header_clock_of(h, sy) is Some && header_clock_of(h, sy)->0 != 0 ==> exists|k: int|
                0 <= k < set_chips(clock_table(h)).len() && set_chips(clock_table(h))[k] == ExtendedInstructionSet::SetChip(
                    (ChipPayload { system: sy, clock_value: header_clock_of(h, sy)->0 }),
                ),
{
    lemma_set_chips_members(clock_table(h));
    lemma_clock_table_fields(h);
    assert forall|sy: System|
        #[trigger] header_clock_of(h, sy) is Some && header_clock_of(h, sy)->0 != 0 implies exists|k: int|
        0 <= k < set_chips(clock_table(h)).len() && set_chips(clock_table(h))[k]
            == ExtendedInstructionSet::SetChip(
            (ChipPayload { system: sy, clock_value: header_clock_of(h, sy)->0 }),
        ) by {
        lemma_clock_table_has(h, sy);
        let j = choose|j: int|
            0 <= j < clock_table(h).len() && #[trigger] clock_table(h)[j] == (ChipPayload {
                system: sy,
                clock_value: header_clock_of(h, sy)->0,
            });
        assert(clock_table(h)[j].clock_value != 0);
    }
}

/// The chip setup instructions for a header: one for each chip with a
/// non-zero clock, in the order of the header's fields.
pub fn find_clock_commands(header: &HeaderData) -> (r: Vec<ExtendedInstructionSet>)
    ensures
        r@ == set_chips(clock_table(*header)),
        forall|k: int|
            0 <= k < r@.len() ==> (#[trigger] r@[k] matches ExtendedInstructionSet::SetChip(p) && p.clock_value != 0
                && header_clock_of(*header, p.system) == Some(p.clock_value)),
        forall|sy: System|
            #[trigger] header_clock_of(*header, sy) is Some && header_clock_of(*header, sy)->0 != 0 ==> exists|k: int|
                0 <= k < r@.len() && r@[k] == ExtendedInstructionSet::SetChip(
                    (ChipPayload { system: sy, clock_value: header_clock_of(*header, sy)->0 }),
                ),
{
    let mut table: Vec<ChipPayload> = Vec::new();
    table.push(ChipPayload::new(System::SN76489, header.sn76489_clock));
    table.push(ChipPayload::new(System::YM2413, header.ym2413_clock));
    table.push(ChipPayload::new(System::YM2612, header.ym2612_clock));
    table.push(ChipPayload::new(System::YM2151, header.ym2151_clock));
    table.push(ChipPayload::new(System::SegaPcm, header.sega_pcm_clock));
    table.push(ChipPayload::new(System::RF5C68, header.rf5_c68_clock));
    table.push(ChipPayload::new(System::YM2203, header.ym2203_clock));
    table.push(ChipPayload::new(System::YM2608, header.ym2608_clock));
    table.push(ChipPayload::new(System::YM2610, header.ym2610_b_clock));
    table.push(ChipPayload::new(System::YM3812, header.ym3812_clock));
    table.push(ChipPayload::new(System::YM3526, header.ym3526_clock));
    table.push(ChipPayload::new(System::Y8950, header.y8950_clock));
    table.push(ChipPayload::new(System::YMF262, header.ymf262_clock));
    table.push(ChipPayload::new(System::YMF278B, header.ymf278_b_clock));
    table.push(ChipPayload::new(System::YMF271, header.ymf271_clock));
    table.push(ChipPayload::new(System::YMZ280B, header.ymz280_b_clock));
    table.push(ChipPayload::new(System::RF5C164, header.rf5_c164_clock));
    table.push(ChipPayload::new(System::Pwm, header.pwm_clock));
    table.push(ChipPayload::new(System::AY8910, header.ay8910_clock));
    table.push(ChipPayload::new(System::GameboyDmg, header.gb_dmg_clock));
    table.push(ChipPayload::new(System::NesApu, header.nes_apu_clock));
    table.push(ChipPayload::new(System::MultiPcm, header.multi_pcm_clock));
    table.push(ChipPayload::new(System::UPD7759, header.u_pd7759_clock));
    table.push(ChipPayload::new(System::OKIM6258, header.okim6258_clock));
    table.push(ChipPayload::new(System::OKIM6295, header.okim6295_clock));
    table.push(ChipPayload::new(System::K051649, header.k051649_k052539_clock));
    table.push(ChipPayload::new(System::K054539, header.k054539_clock));
    table.push(ChipPayload::new(System::HuC6280, header.hu_c6280_clock));
    table.push(ChipPayload::new(System::C140, header.c140_clock));
    table.push(ChipPayload::new(System::K053260, header.k053260_clock));
    table.push(ChipPayload::new(System::Pokey, header.pokey_clock));
    table.push(ChipPayload::new(System::QSound, header.qsound_clock));
    table.push(ChipPayload::new(System::SCSP, header.scsp_clock));
    table.push(ChipPayload::new(System::WonderSwan, header.wonder_swan_clock));
    table.push(ChipPayload::new(System::VSU, header.vsu_clock));
    table.push(ChipPayload::new(System::SAA1099, header.saa1099_clock));
    table.push(ChipPayload::new(System::ES5503, header.es5503_clock));
    table.push(ChipPayload::new(System::ES5506, header.es5506_clock));
    table.push(ChipPayload::new(System::X1_010, header.x1010_clock));
    table.push(ChipPayload::new(System::C352, header.c352_clock));
    table.push(ChipPayload::new(System::GA20, header.ga20_clock));
    assert(table@ =~= clock_table(*header));
    let mut r: Vec<ExtendedInstructionSet> = Vec::new();
    let mut i: usize = 0;
    while i < table.len()
        invariant
            i <= table@.len(),
            table@ == clock_table(*header),
            r@ == set_chips(table@.take(i as int)),
        decreases table@.len() - i,
    {
        let p = table[i];
        assert(table@.take(i as int + 1).drop_last() =~= table@.take(i as int));
        if p.clock_value != 0 {
            r.push(ExtendedInstructionSet::SetChip(p));
        }
        i += 1;
    }
    assert(table@.take(i as int) =~= table@);
    proof {
        lemma_clock_commands_name_their_chips(*header);
    }
    r
}

/// The tokens given out so far: each instruction with its token, and the
/// instructions in the order in which they were registered.
pub struct Registry {
    instruction_to_token: Vec<(ExtendedInstructionSet, usize)>,
    token_to_instruction: Vec<ExtendedInstructionSet>,
}

impl Registry {
    /// Each registered instruction with its token, in the order of registration.
    pub closed spec fn entries(self) -> Seq<(ExtendedInstructionSet, usize)> {
        self.instruction_to_token@
    }

    /// The registered instructions, in the order of registration.
    pub closed spec fn instructions(self) -> Seq<ExtendedInstructionSet> {
        self.token_to_instruction@
    }

    /// Whether `instr` has been given a token.
    pub open spec fn holds(self, instr: ExtendedInstructionSet) -> bool {
        exists|i: int| 0 <= i < self.entries().len() && #[trigger] instructions_same(self.entries()[i].0, instr)
    }

    /// The registry is consistent: the two lists name the same instructions
    /// in the same order, and no instruction has two tokens.
    pub open spec fn well_formed(self) -> bool {
        &&& self.entries().len() == self.instructions().len()
        &&& forall|i: int| 0 <= i < self.entries().len() ==> instructions_same(#[trigger] self.instructions()[i], self.entries()[i].0)
        &&& forall|i: int, j: int|
            0 <= i < j < self.entries().len() ==> !instructions_same(#[trigger] self.entries()[i].0, #[trigger] self.entries()[j].0)
    }

    /// A registry that knows the start-of-file instruction as token 0 and the
    /// end-of-header instruction as token 1.
    pub fn new() -> (r: Self)
        ensures
            r.well_formed(),
            r.entries() == seq![(ExtendedInstructionSet::StartFile, 0usize), (ExtendedInstructionSet::EndHeader, 1usize)],
            r.instructions() == seq![ExtendedInstructionSet::StartFile, ExtendedInstructionSet::EndHeader],
    {
        let mut registry = Registry { instruction_to_token: Vec::new(), token_to_instruction: Vec::new() };
        registry.instruction_to_token.push((ExtendedInstructionSet::StartFile, 0));
        registry.token_to_instruction.push(ExtendedInstructionSet::StartFile);
        registry.instruction_to_token.push((ExtendedInstructionSet::EndHeader, 1));
        registry.token_to_instruction.push(ExtendedInstructionSet::EndHeader);
        assert(registry.instruction_to_token@ =~= seq![(ExtendedInstructionSet::StartFile, 0usize), (ExtendedInstructionSet::EndHeader, 1usize)]);
        assert(registry.token_to_instruction@ =~= seq![ExtendedInstructionSet::StartFile, ExtendedInstructionSet::EndHeader]);
        registry
    }

    /// Whether `instr` already has a token.
    fn contains(&self, instr: &ExtendedInstructionSet) -> (r: bool)
        ensures
            r == self.holds(*instr),
    {
        let mut i: usize = 0;
        while i < self.instruction_to_token.len()
            invariant
                i <= self.entries().len(),
                forall|j: int| 0 <= j < i ==> !instructions_same(#[trigger] self.entries()[j].0, *instr),
            decreases self.entries().len() - i,
        {
            if same_instruction(&self.instruction_to_token[i].0, instr) {
                return true;
            }
            i += 1;
        }
        false
    }
}

/// Gives a VGM command the token `curr_id` unless it already has one.
/// Returns the next free token, or `None` when the command was known and
/// the registry is left as it was.
pub fn allocate_commands(vgm_command: Commands, registry: &mut Registry, curr_id: usize) -> (r: Option<usize>)
    requires
        !old(registry).holds(ExtendedInstructionSet::VgmCommand(vgm_command)) ==> curr_id < usize::MAX,
    ensures
        old(registry).holds(ExtendedInstructionSet::VgmCommand(vgm_command)) ==> {
            &&& r is None
            &&& *final(registry) == *old(registry)
        },
        !old(registry).holds(ExtendedInstructionSet::VgmCommand(vgm_command)) ==> {
            &&& r == Some((curr_id + 1) as usize)
            &&& final(registry).entries() == old(registry).entries().push((ExtendedInstructionSet::VgmCommand(vgm_command), curr_id))
            &&& final(registry).instructions().len() == old(registry).instructions().len() + 1
            &&& final(registry).instructions().drop_last() == old(registry).instructions()
            &&& instructions_same(final(registry).instructions().last(), ExtendedInstructionSet::VgmCommand(vgm_command))
        },
        old(registry).well_formed() ==> final(registry).well_formed(),
{
    let wrapped_command = ExtendedInstructionSet::VgmCommand(vgm_command);
    if registry.contains(&wrapped_command) {
        None
    } else {
        let ghost before = *registry;
        let copy = copy_instruction(&wrapped_command);
        registry.instruction_to_token.push((wrapped_command, curr_id));
        registry.token_to_instruction.push(copy);
        proof {
            let n = before.entries().len() as int;
            assert(registry.instructions().drop_last() =~= before.instructions());
            assert(registry.entries() =~= before.entries().push((ExtendedInstructionSet::VgmCommand(vgm_command), curr_id)));
            if before.well_formed() {
                assert forall|i: int, j: int|
                    0 <= i < j < registry.entries().len() implies !instructions_same(
                    #[trigger] registry.entries()[i].0,
                    #[trigger] registry.entries()[j].0,
                ) by {
                    assert(registry.entries()[i] == before.entries()[i]);
                    if j < n {
                        assert(registry.entries()[j] == before.entries()[j]);
                    }
                }
                assert forall|i: int| 0 <= i < registry.entries().len() implies instructions_same(
                    #[trigger] registry.instructions()[i],
                    registry.entries()[i].0,
                ) by {
                    if i < n {
                        assert(registry.instructions()[i] == before.instructions()[i]);
                        assert(registry.entries()[i] == before.entries()[i]);
                    }
                }
            }
        }
        Some(curr_id + 1)
    }
}


/// Every instruction is the same as itself.
pub proof fn lemma_instruction_same_as_itself(e: ExtendedInstructionSet)
    ensures
        instructions_same(e, e),
{
    match e {
        ExtendedInstructionSet::VgmCommand(c) => {
            match c {
                Commands::DataBlock { block_type, data } => {
                    assert(contents_same(data, data));
                },
                _ => {},
            }
        },
        _ => {},
    }
}

/// Once a command has been given a token it keeps it: a second allocation of
/// the same command gives none and leaves the registry unchanged.
pub proof fn lemma_allocation_is_remembered(before: Registry, after: Registry, c: Commands, id: usize)
    requires
        after.entries() == before.entries().push((ExtendedInstructionSet::VgmCommand(c), id)),
    ensures
        after.holds(ExtendedInstructionSet::VgmCommand(c)),
{
    let n = before.entries().len() as int;
    lemma_instruction_same_as_itself(ExtendedInstructionSet::VgmCommand(c));
    assert(after.entries()[n].0 == ExtendedInstructionSet::VgmCommand(c));
    assert(instructions_same(after.entries()[n].0, ExtendedInstructionSet::VgmCommand(c)));
}

} // verus!

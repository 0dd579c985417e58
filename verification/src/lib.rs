//! Parsing, validation and serialisation of VGM (Video Game Music) files.

pub mod buffer;
pub mod command_writer;
pub mod custom_encoder;
pub mod decompression;
pub mod errors;
pub mod header;
pub mod metadata;
pub mod parser_config;
pub mod systems;
pub mod text;
pub mod tokenizing;
pub mod traits;
pub mod utils;
pub mod validation;
pub mod vgm_commands;

pub use crate::command_writer::write_commands;
pub use crate::decompression::{decompress_bit_packing, decompress_dpcm, BitReader};
pub use crate::errors::{ErrorCategory, LibError, VgmError, VgmErrorContext, VgmResult};
pub use crate::header::{ChipClockEntry, ChipVolumeEntry, ExtraHeaderData, HeaderData};
pub use crate::metadata::{Gd3LocaleData, LanguageData, VgmMetadata};
pub use crate::parser_config::{AllocationGuard, ParserConfig, ResourceTracker};
pub use crate::systems::System;
pub use crate::tokenizing::{allocate_commands, find_clock_commands, ChipPayload, ExtendedInstructionSet, Registry};
pub use crate::traits::{VgmParser, VgmWriter};
pub use crate::validation::{
    ChipValidator, ConsistencyValidator, OffsetValidator, ValidationConfig, ValidationContext,
    VersionValidator, VgmValidate, VgmValidator,
};
pub use crate::vgm_commands::{
    parse_commands, parse_commands_safe, parse_commands_with_config, Commands, CompressionType,
    DataBlockContent, RAMWriteChipType, ROMDumpChipType, StreamChipType,
};

use crate::buffer::{buf_from_vec, buf_get_u8, buf_len, buf_slice, buf_to_vec, bytes_mut_view, bytes_view};
use crate::command_writer::{commands_bytes, writable, write_error, write_refused};
use crate::header::{
    depth_refused, header_bytes, header_error, header_positions_fit, header_probe, header_read, header_step,
    opt_value, opt_values, overflow_error, vgm_start,
};
use crate::metadata::{
    field_limit, first_bad_field, gd3_bytes, gd3_fails_early, gd3_fields, gd3_units, metadata_read,
    metadata_result,
};
use crate::parser_config::{default_limits, fresh_tracker, is_size_error};
use crate::validation::{default_validation, file_validation, header_offset_sums, header_validation_defined};
use crate::vgm_commands::{
    run_commands, run_end, run_error, run_is_stuck, step_len, vec_le32, Probe, RunEnd, Step,
};
use bytes::{Bytes, BytesMut};
use vstd::prelude::*;

verus! {

/// A parsed VGM file: its header, its commands and its GD3 metadata.
#[derive(Debug)]
pub struct VgmFile {
    pub header: HeaderData,
    pub commands: Vec<Commands>,
    pub metadata: VgmMetadata,
}

/// Where reading goes on after the header: at the VGM data, or after the
/// header's last field where that lies further.
pub open spec fn body_position(s: Seq<u8>, config: Option<ParserConfig>) -> int {
    let l = step_len(header_step(s, config)) as int;
    if l < vgm_start(s) {
        vgm_start(s)
    } else {
        l
    }
}

/// The limits under which the commands are read: those given, or the default ones.
pub open spec fn command_limits(config: Option<ParserConfig>) -> ParserConfig {
    match config {
        Some(c) => c,
        None => default_limits(),
    }
}

/// Whether the metadata read from `rest` is refused.
pub open spec fn metadata_refused(rest: Seq<u8>, config: Option<ParserConfig>) -> bool {
    gd3_fails_early(rest, config) || first_bad_field(gd3_fields(gd3_units(rest)), field_limit(config), 0) < 11
}

/// Whether the limits refuse to enter the header at all.
pub open spec fn file_depth_refused(config: Option<ParserConfig>) -> bool {
    config is Some && depth_refused(fresh_tracker(), config->0)
}

/// Whether reading a file from `s` stays within the data: the header can be
/// read, the VGM data starts within `s`, and the commands can be read.
pub open spec fn file_readable(s: Seq<u8>, config: Option<ParserConfig>) -> bool {
    let st = header_step(s, config);
    let rest = s.skip(body_position(s, config));
    &&& !(st is Stuck)
    &&& st is Done ==> body_position(s, config) <= s.len()
    &&& (st is Done && !metadata_refused(rest, config)) ==> !(run_end(
        rest,
        Some(command_limits(config)),
        fresh_tracker(),
    ) is Stuck)
}

/// Whether `f` is what reading a file from `s` gives when each part is read:
/// the header from `s`, the metadata and the commands from the VGM data on.
pub open spec fn file_parsed(f: VgmFile, s: Seq<u8>, config: Option<ParserConfig>) -> bool {
    let rest = s.skip(body_position(s, config));
    let limits = Some(command_limits(config));
    &&& header_step(s, config) is Done
    &&& !metadata_refused(rest, config)
    &&& header_read(f.header, s)
    &&& metadata_read(f.metadata, rest)
    &&& match run_end(rest, limits, fresh_tracker()) {
        RunEnd::Ended { count, .. } => f.commands@.len() == count && run_commands(
            rest,
            limits,
            fresh_tracker(),
            f.commands@,
        ),
        RunEnd::Failed { .. } => config is None && f.commands@.len() == 0,
        RunEnd::Stuck => false,
    }
}

/// What reading a file from `s` gives (`r`) and leaves unread (`left`): the
/// header's error, the metadata's error, the commands' error (where limits
/// were given), or the file.
pub open spec fn file_outcome(s: Seq<u8>, config: Option<ParserConfig>, r: VgmResult<VgmFile>, left: Seq<u8>) -> bool {
    let st = header_step(s, config);
    let rest = s.skip(body_position(s, config));
    let limits = Some(command_limits(config));
    if st is Refused {
        &&& r is Err
        &&& header_error(s, config, r->Err_0)
        &&& left == s.skip(step_len(st) as int)
    } else if metadata_refused(rest, config) {
        &&& r is Err
        &&& metadata_result(rest, config, VgmResult::<VgmMetadata>::Err(r->Err_0))
        &&& left == rest
    } else {
        match run_end(rest, limits, fresh_tracker()) {
            RunEnd::Ended { len, .. } => r is Ok && file_parsed(r->Ok_0, s, config) && left == rest.skip(
                len as int,
            ),
            RunEnd::Failed { len, .. } => {
                &&& left == rest.skip(len as int)
                &&& config is Some ==> r is Err && run_error(rest, limits, fresh_tracker(), r->Err_0)
                &&& config is None ==> r is Ok && file_parsed(r->Ok_0, s, config)
            },
            RunEnd::Stuck => false,
        }
    }
}

/// Drops the first bytes of `data` until `pos` bytes of `s` are behind.
fn skip_to(data: &mut Bytes, total: usize, pos: usize, Ghost(s): Ghost<Seq<u8>>, Ghost(k): Ghost<int>)
    requires
        s.len() == total,
        0 <= k <= total,
        pos <= total,
        bytes_view(*old(data)) == s.skip(k),
    ensures
        bytes_view(*final(data)) == s.skip(if k < pos { pos as int } else { k }),
{
    let ghost mut j: int = k;
    while total - buf_len(data) < pos
        invariant
            s.len() == total,
            pos <= total,
            0 <= k <= j <= total,
            bytes_view(*data) == s.skip(j),
            j == k || j <= pos,
        decreases bytes_view(*data).len(),
    {
        buf_get_u8(data);
        proof {
            assert(bytes_view(*data) =~= s.skip(j + 1));
            j = j + 1;
        }
    }
}

impl VgmFile {
    /// Reads a file: the header, then, from where the VGM data starts, the
    /// GD3 metadata (which consumes nothing) and the commands, under the
    /// limits of `parser_config`. Whether `data` can be read to its end under
    /// those limits is what `readable` tells.
    pub fn from_bytes_with_config(data: &mut Bytes, parser_config: ParserConfig) -> (r: VgmResult<Self>)
        requires
            bytes_view(*old(data)).len() <= isize::MAX,
            !file_depth_refused(Some(parser_config)) ==> file_readable(bytes_view(*old(data)), Some(parser_config)),
        ensures
            file_depth_refused(Some(parser_config)) ==> {
                &&& r is Err
                &&& r->Err_0 == (VgmError::ParseStackOverflow {
                    position: 0,
                    max_depth: parser_config.max_parsing_depth as usize,
                })
                &&& bytes_view(*final(data)) == bytes_view(*old(data))
            },
            !file_depth_refused(Some(parser_config)) ==> file_outcome(
                bytes_view(*old(data)),
                Some(parser_config),
                r,
                bytes_view(*final(data)),
            ),
    {
        let ghost s = bytes_view(*data);
        let len_data = buf_len(data);
        let mut resource_tracker = ResourceTracker::new();
        assert(resource_tracker == fresh_tracker());
        let header_data = HeaderData::from_bytes_with_config(data, &parser_config, &mut resource_tracker)?;
        let vgm_start_pos = match header_data.vgm_data_offset.checked_add(0x34) {
            Some(v) => v as usize,
            None => {
                return Err(
                    overflow_error("VGM data offset calculation", "offset ", header_data.vgm_data_offset, " + 0x34"),
                );
            },
        };
        skip_to(data, len_data, vgm_start_pos, Ghost(s), Ghost(step_len(header_step(s, Some(parser_config))) as int));
        let metadata = VgmMetadata::from_bytes_with_config(data, &parser_config)?;
        let commands = parse_commands_with_config(data, &parser_config, &mut resource_tracker)?;
        Ok(VgmFile { header: header_data, commands, metadata })
    }
}


/// The outcome of validating a parsed file, without the file.
pub open spec fn validation_outcome(r: VgmResult<VgmFile>) -> VgmResult<()> {
    match r {
        Ok(_) => Ok(()),
        Err(e) => Err(e),
    }
}

/// What reading and then validating a file from `s` gives: the error of the
/// reading, or the file read with the outcome of its validation against
/// `vc`, where `n` is the size of the file.
pub open spec fn validated_outcome(
    s: Seq<u8>,
    pc: ParserConfig,
    vc: ValidationConfig,
    n: usize,
    r: VgmResult<VgmFile>,
    left: Seq<u8>,
) -> bool {
    ||| r is Err && file_outcome(s, Some(pc), r, left)
    ||| exists|f: VgmFile|
        #![trigger file_parsed(f, s, Some(pc))]
        {
            &&& file_outcome(s, Some(pc), Ok(f), left)
            &&& file_parsed(f, s, Some(pc))
            &&& file_validation(vc, f.header, f.commands@, f.metadata, n, validation_outcome(r))
            &&& r is Ok ==> r->Ok_0 == f
        }
}

/// Whether a command is a data block.
pub open spec fn is_data_block(c: Commands) -> bool {
    c is DataBlock
}

/// Whether a command is a PCM RAM write.
pub open spec fn is_pcm_write(c: Commands) -> bool {
    c is PCMRAMWrite
}

impl VgmFile {
    /// Reads a file as `from_bytes_with_config` does, with no limits on the
    /// header and the metadata and the default limits on the commands; a
    /// failed command parse gives a file without commands. Whether `data` can
    /// be read to its end is what `readable` tells, given no limits.
    pub fn from_bytes(data: &mut Bytes) -> (r: VgmResult<Self>)
        requires
            bytes_view(*old(data)).len() <= isize::MAX,
            file_readable(bytes_view(*old(data)), None),
        ensures
            file_outcome(bytes_view(*old(data)), None, r, bytes_view(*final(data))),
    {
        let ghost s = bytes_view(*data);
        let len_data = buf_len(data);
        let header_data = HeaderData::from_bytes(data)?;
        let vgm_start_pos = match header_data.vgm_data_offset.checked_add(0x34) {
            Some(v) => v as usize,
            None => {
                return Err(
                    overflow_error("VGM data offset calculation", "offset ", header_data.vgm_data_offset, " + 0x34"),
                );
            },
        };
        skip_to(data, len_data, vgm_start_pos, Ghost(s), Ghost(step_len(header_step(s, None)) as int));
        let metadata = VgmMetadata::from_bytes(data)?;
        let commands = parse_commands(data);
        Ok(VgmFile { header: header_data, commands, metadata })
    }

    /// Reads a file under `parser_config` and validates it against
    /// `validation_config`, with the size of the whole input as file size.
    pub fn from_bytes_with_full_config(
        data: &mut Bytes,
        parser_config: ParserConfig,
        validation_config: ValidationConfig,
    ) -> (r: VgmResult<Self>)
        requires
            bytes_view(*old(data)).len() <= isize::MAX,
            !file_depth_refused(Some(parser_config)) ==> {
                &&& file_readable(bytes_view(*old(data)), Some(parser_config))
                &&& file_validation_defined(bytes_view(*old(data)), validation_config, parser_config)
            },
        ensures
            file_depth_refused(Some(parser_config)) ==> {
                &&& r is Err
                &&& r->Err_0 == (VgmError::ParseStackOverflow {
                    position: 0,
                    max_depth: parser_config.max_parsing_depth as usize,
                })
                &&& bytes_view(*final(data)) == bytes_view(*old(data))
            },
            !file_depth_refused(Some(parser_config)) ==> validated_outcome(
                bytes_view(*old(data)),
                parser_config,
                validation_config,
                bytes_view(*old(data)).len() as usize,
                r,
                bytes_view(*final(data)),
            ),
    {
        let original_len = buf_len(data);
        let vgm_file = Self::from_bytes_with_config(data, parser_config)?;
        let validator = VgmValidator::new(validation_config);
        let checked = validator.validate_vgm_file(
            &vgm_file.header,
            vgm_file.commands.as_slice(),
            &vgm_file.metadata,
            original_len,
        );
        match checked {
            Ok(()) => Ok(vgm_file),
            Err(e) => Err(e),
        }
    }

    /// Reads a file under the default limits and validates it against `config`.
    pub fn from_bytes_validated(data: &mut Bytes, config: ValidationConfig) -> (r: VgmResult<Self>)
        requires
            bytes_view(*old(data)).len() <= isize::MAX,
            file_readable(bytes_view(*old(data)), Some(default_limits())),
            forall|f: VgmFile|
                #[trigger] file_parsed(f, bytes_view(*old(data)), Some(default_limits())) ==> header_validation_defined(
                    f.header,
                    ValidationContext { file_size: bytes_view(*old(data)).len() as usize, config },
                ),
        ensures
            validated_outcome(
                bytes_view(*old(data)),
                default_limits(),
                config,
                bytes_view(*old(data)).len() as usize,
                r,
                bytes_view(*final(data)),
            ),
    {
        Self::from_bytes_with_full_config(data, ParserConfig::default(), config)
    }

    /// Validates the file against `config`; see `file_validation`.
    pub fn validate_with_config(&self, config: ValidationConfig, file_size: usize) -> (r: VgmResult<()>)
        requires
            header_validation_defined(self.header, ValidationContext { file_size, config }),
        ensures
            file_validation(config, self.header, self.commands@, self.metadata, file_size, r),
    {
        let validator = VgmValidator::new(config);
        validator.validate_vgm_file(&self.header, self.commands.as_slice(), &self.metadata, file_size)
    }

    /// Validates the file against the default limits.
    pub fn validate(&self, file_size: usize) -> (r: VgmResult<()>)
        requires
            header_validation_defined(self.header, ValidationContext { file_size, config: default_validation() }),
        ensures
            file_validation(default_validation(), self.header, self.commands@, self.metadata, file_size, r),
    {
        self.validate_with_config(ValidationConfig::default(), file_size)
    }

    /// Whether any command is a data block.
    pub fn has_data_block(&self) -> (r: bool)
        ensures
            r == exists|i: int| 0 <= i < self.commands@.len() && is_data_block(#[trigger] self.commands@[i]),
    {
        let mut i: usize = 0;
        while i < self.commands.len()
            invariant
                i <= self.commands@.len(),
                forall|j: int| 0 <= j < i ==> !is_data_block(#[trigger] self.commands@[j]),
            decreases self.commands@.len() - i,
        {
            if let Commands::DataBlock { .. } = &self.commands[i] {
                return true;
            }
            i += 1;
        }
        false
    }

    /// Whether any command is a PCM RAM write.
    pub fn has_pcm_write(&self) -> (r: bool)
        ensures
            r == exists|i: int| 0 <= i < self.commands@.len() && is_pcm_write(#[trigger] self.commands@[i]),
    {
        let mut i: usize = 0;
        while i < self.commands.len()
            invariant
                i <= self.commands@.len(),
                forall|j: int| 0 <= j < i ==> !is_pcm_write(#[trigger] self.commands@[j]),
            decreases self.commands@.len() - i,
        {
            if let Commands::PCMRAMWrite { .. } = &self.commands[i] {
                return true;
            }
            i += 1;
        }
        false
    }

    /// Appends the file: the header (positions counted in the buffer), the
    /// commands, then the metadata. The first command that cannot be written
    /// stops it with its error.
    pub fn to_bytes(&self, buffer: &mut BytesMut) -> (r: VgmResult<()>)
        requires
            header_positions_fit(self.header),
            forall|i: int| 0 <= i < self.commands@.len() ==> writable(#[trigger] self.commands@[i]),
        ensures
            ({
                let b = bytes_mut_view(*old(buffer));
                let head = b + header_bytes(self.header, b.len() as int);
                &&& r is Ok <==> forall|i: int| 0 <= i < self.commands@.len() ==> !write_refused(#[trigger] self.commands@[i])
                &&& r is Ok ==> bytes_mut_view(*final(buffer)) == head + commands_bytes(self.commands@) + gd3_bytes(self.metadata)
                &&& r is Err ==> exists|j: int|
                    0 <= j < self.commands@.len() && write_refused(#[trigger] self.commands@[j]) && (forall|i: int|
                        0 <= i < j ==> !write_refused(#[trigger] self.commands@[i])) && write_error(self.commands@[j], r->Err_0)
                        && bytes_mut_view(*final(buffer)) == head + commands_bytes(self.commands@.take(j))
            }),
    {
        self.header.to_bytes(buffer)?;
        write_commands(buffer, &self.commands)?;
        self.metadata.to_bytes(buffer)?;
        Ok(())
    }
}


/// Whether reading a file from `data` stays within the data
/// (`file_readable`): with `config` `None`, the condition under which
/// `VgmFile::from_bytes` may be called; with limits, that under which
/// `VgmFile::from_bytes_with_config` may be called with them. Nothing of
/// `data` is consumed.
pub fn readable(data: &Bytes, config: Option<ParserConfig>) -> (b: bool)
    ensures
        b == file_readable(bytes_view(*data), config),
{
    let v = buf_to_vec(data);
    let ghost s = v@;
    let n = v.len();
    let len = match header_probe(&v, &config) {
        Probe::Stuck => {
            return false;
        },
        Probe::Refused => {
            return true;
        },
        Probe::Done(len) => len,
    };
    let start = vec_le32(&v, 0x34) as u64 + 0x34;
    assert(start == vgm_start(s));
    let position: u64 = if (len as u64) < start { start } else { len as u64 };
    if position > n as u64 {
        return false;
    }
    let position = position as usize;
    assert(position == body_position(s, config));
    let mut rest = buf_slice(data, position, n);
    assert(bytes_view(rest) =~= s.skip(position as int));
    let defaults = ParserConfig::default();
    let limits: &ParserConfig = match &config {
        Some(c) => c,
        None => &defaults,
    };
    let metadata = match &config {
        Some(c) => VgmMetadata::from_bytes_with_config(&mut rest, c),
        None => VgmMetadata::from_bytes(&mut rest),
    };
    if metadata.is_err() {
        return true;
    }
    !run_is_stuck(&v, position, limits)
}


/// Whether validating any file read from `s` under `pc` against `vc`, with
/// the length of `s` as the file size, keeps its offset sums within 32 bits.
pub open spec fn file_validation_defined(s: Seq<u8>, vc: ValidationConfig, pc: ParserConfig) -> bool {
    forall|f: VgmFile|
        #[trigger] file_parsed(f, s, Some(pc)) ==> header_validation_defined(
            f.header,
            ValidationContext { file_size: s.len() as usize, config: vc },
        )
}

/// Two headers read from the same bytes agree on whether validating them
/// keeps the offset sums within 32 bits.
proof fn lemma_read_headers_validate_alike(h1: HeaderData, h2: HeaderData, s: Seq<u8>, ctx: ValidationContext)
    requires
        header_read(h1, s),
        header_read(h2, s),
    ensures
        header_validation_defined(h1, ctx) == header_validation_defined(h2, ctx),
{
    reveal(opt_values);
    assert(opt_value(h1, 18) == opt_value(h2, 18));
    assert(opt_value(h1, 40) == opt_value(h2, 40));
    assert(header_offset_sums(h1) == header_offset_sums(h2));
}

/// Whether validating the file read from `vgm_data` under `parser_config`
/// against `validation_config` keeps its offset sums within 32 bits, as
/// `VgmFile::from_file_bytes` requires; bytes from which no file is read
/// ask nothing.
pub fn validation_defined(vgm_data: &[u8], validation_config: ValidationConfig, parser_config: ParserConfig) -> (b:
    bool)
    requires
        vgm_data@.len() <= isize::MAX,
        !file_depth_refused(Some(parser_config)),
        file_readable(vgm_data@, Some(parser_config)),
    ensures
        b == file_validation_defined(vgm_data@, validation_config, parser_config),
{
    let ghost s = vgm_data@;
    let ghost pc = parser_config;
    let ghost vc = validation_config;
    let ghost ctx = ValidationContext { file_size: s.len() as usize, config: vc };
    let mut copy: Vec<u8> = Vec::new();
    let mut i: usize = 0;
    while i < vgm_data.len()
        invariant
            i <= vgm_data@.len(),
            copy@ == vgm_data@.take(i as int),
        decreases vgm_data@.len() - i,
    {
        copy.push(vgm_data[i]);
        i += 1;
        assert(copy@ =~= vgm_data@.take(i as int));
    }
    assert(copy@ =~= vgm_data@);
    let mut data = buf_from_vec(copy);
    let r = VgmFile::from_bytes_with_config(&mut data, parser_config);
    match r {
        Ok(f) => {
            let validator = VgmValidator::new(validation_config);
            let b = validator.can_validate(&f.header, vgm_data.len());
            proof {
                assert(file_parsed(f, s, Some(pc)));
                assert forall|g: VgmFile| #[trigger] file_parsed(g, s, Some(pc)) implies header_validation_defined(
                    g.header,
                    ctx,
                ) == header_validation_defined(f.header, ctx) by {
                    lemma_read_headers_validate_alike(g.header, f.header, s, ctx);
                }
            }
            b
        },
        Err(_) => {
            proof {
                assert forall|g: VgmFile| #[trigger] file_parsed(g, s, Some(pc)) implies header_validation_defined(
                    g.header,
                    ctx,
                ) by {
                    assert(false);
                }
            }
            true
        },
    }
}


impl VgmFile {
    /// Reads a file from its (decompressed) bytes, as read from `path`:
    /// refuses fewer than 64 bytes and more than `max_file_size`, then reads
    /// it under `parser_config` and validates it against
    /// `validation_config`, with the number of bytes as the file size.
    pub fn from_file_bytes(
        path: &str,
        vgm_data: &[u8],
        validation_config: ValidationConfig,
        parser_config: ParserConfig,
    ) -> (r: VgmResult<Self>)
        requires
            64 <= vgm_data@.len() <= validation_config.max_file_size ==> {
                &&& vgm_data@.len() <= isize::MAX
                &&& !file_depth_refused(Some(parser_config)) ==> {
                    &&& file_readable(vgm_data@, Some(parser_config))
                    &&& file_validation_defined(vgm_data@, validation_config, parser_config)
                }
            },
        ensures
            vgm_data@.len() < 64 ==> (r matches Err(VgmError::FileTooSmall { path: p, size }) && p@ == path@
                && size == vgm_data@.len()),
            64 <= vgm_data@.len() && vgm_data@.len() > validation_config.max_file_size ==> r is Err
                && is_size_error(
                r->Err_0,
                "decompressed_file_size"@,
                vgm_data@.len() as int,
                validation_config.max_file_size as int,
            ),
            64 <= vgm_data@.len() <= validation_config.max_file_size && file_depth_refused(Some(parser_config))
                ==> r == Err::<VgmFile, VgmError>(
                VgmError::ParseStackOverflow { position: 0, max_depth: parser_config.max_parsing_depth as usize },
            ),
            64 <= vgm_data@.len() <= validation_config.max_file_size && !file_depth_refused(Some(parser_config))
                ==> exists|left: Seq<u8>|
                #[trigger] validated_outcome(
                    vgm_data@,
                    parser_config,
                    validation_config,
                    vgm_data@.len() as usize,
                    r,
                    left,
                ),
    {
        if vgm_data.len() < 64 {
            return Err(VgmError::FileTooSmall { path: String::from_str(path), size: vgm_data.len() });
        }
        if vgm_data.len() > validation_config.max_file_size {
            return Err(
                VgmError::DataSizeExceedsLimit {
                    field: String::from_str("decompressed_file_size"),
                    size: vgm_data.len(),
                    limit: validation_config.max_file_size,
                },
            );
        }
        let mut copy: Vec<u8> = Vec::new();
        let mut i: usize = 0;
        while i < vgm_data.len()
            invariant
                i <= vgm_data@.len(),
                copy@ == vgm_data@.take(i as int),
            decreases vgm_data@.len() - i,
        {
            copy.push(vgm_data[i]);
            i += 1;
            assert(copy@ =~= vgm_data@.take(i as int));
        }
        assert(copy@ =~= vgm_data@);
        let mut data = buf_from_vec(copy);
        let r = Self::from_bytes_with_full_config(&mut data, parser_config, validation_config);
        proof {
            if !file_depth_refused(Some(parser_config)) {
                let left = bytes_view(data);
                assert(validated_outcome(
                    vgm_data@,
                    parser_config,
                    validation_config,
                    vgm_data@.len() as usize,
                    r,
                    left,
                ));
            }
        }
        r
    }
}
} // verus!

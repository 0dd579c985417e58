//! Validation of parsed VGM data: versions, offsets, chip clocks, and the
//! agreement between commands and the header.

use crate::errors::{VgmError, VgmResult};
use crate::header::HeaderData;
use crate::parser_config::is_size_error;
use crate::metadata::VgmMetadata;
use crate::text::{decimal_string, decimal_text, digit_text, joined};
use crate::vgm_commands::Commands;
use vstd::prelude::*;
use vstd::string::{StrSliceExecFns, StringExecFns};

verus! {

/// Limits and rules of validation.
#[derive(Debug, Clone)]
pub struct ValidationConfig {
    /// Minimum supported VGM version (decimal, 151 for 1.51).
    pub min_vgm_version: u32,
    /// Maximum supported VGM version (decimal).
    pub max_vgm_version: u32,
    /// Maximum allowed file size (bytes).
    pub max_file_size: usize,
    /// Maximum allowed number of commands.
    pub max_commands: usize,
    /// Maximum allowed data block size.
    pub max_data_block_size: u32,
    /// Whether to perform strict validation (fail on warnings).
    pub strict_mode: bool,
}

/// The default validation limits.
pub open spec fn default_validation() -> ValidationConfig {
    ValidationConfig {
        min_vgm_version: 100,
        max_vgm_version: 171,
        max_file_size: 67108864,
        max_commands: 1000000,
        max_data_block_size: 16777216,
        strict_mode: false,
    }
}

impl Default for ValidationConfig {
    fn default() -> (c: Self)
        ensures
            c == default_validation(),
    {
        ValidationConfig {
            min_vgm_version: 100,
            max_vgm_version: 171,
            max_file_size: 67108864,
            max_commands: 1000000,
            max_data_block_size: 16777216,
            strict_mode: false,
        }
    }
}

/// What validation knows of the file: its size, and the limits.
#[derive(Debug)]
pub struct ValidationContext {
    pub file_size: usize,
    pub config: ValidationConfig,
}

/// Parts of a VGM file that can be validated.
pub trait VgmValidate {
    /// Whether `r` is what validating the part in `context` gives.
    spec fn validation_result(&self, context: ValidationContext, r: VgmResult<()>) -> bool;

    /// Validates the part in the given context.
    fn validate(&self, context: &ValidationContext) -> (r: VgmResult<()>)
        ensures
            self.validation_result(*context, r),
    ;

    /// Validates the part with the default limits and no limit on the file size.
    fn quick_validate(&self) -> (r: VgmResult<()>)
        ensures
            self.validation_result(ValidationContext { file_size: usize::MAX, config: default_validation() }, r),
    {
        let default_context = ValidationContext {
            file_size: usize::MAX,
            config: ValidationConfig::default(),
        };
        self.validate(&default_context)
    }
}

/// Checks VGM versions against the supported range.
pub struct VersionValidator;

/// A version as "major.minor", with two digits of minor version.
pub open spec fn version_text(version: u32) -> Seq<char> {
    decimal_text((version / 100) as nat) + "."@ + digit_text(((version % 100) / 10) as int)
        + digit_text((version % 10) as int)
}

/// The error for a version outside the supported range.
pub open spec fn is_version_error(e: VgmError, version: u32, range: Seq<char>) -> bool {
    e matches VgmError::UnsupportedVgmVersion { version: v, supported_range } && v == version
        && supported_range@ == range
}

/// The value of `v` read as binary-coded decimal (as a header stores its
/// version: 0x151 for 1.51), where every hexadecimal digit of it is a
/// decimal digit.
pub open spec fn bcd_number(v: nat) -> Option<nat>
    decreases v,
{
    if v == 0 {
        Some(0)
    } else if v % 16 > 9 {
        None
    } else {
        match bcd_number(v / 16) {
            Some(h) => Some(h * 10 + v % 16),
            None => None,
        }
    }
}

/// Whether a version is supported: within the range as the number it is,
/// or as the binary-coded decimal that a header stores.
pub open spec fn version_supported(version: u32, config: ValidationConfig) -> bool {
    ||| config.min_vgm_version <= version <= config.max_vgm_version
    ||| (bcd_number(version as nat) matches Some(b) && config.min_vgm_version <= b <= config.max_vgm_version)
}

/// A binary-coded decimal is no larger than the number that holds it.
proof fn lemma_bcd_number_bound(v: nat)
    ensures
        bcd_number(v) matches Some(b) ==> b <= v,
    decreases v,
{
    if v != 0 && v % 16 <= 9 {
        lemma_bcd_number_bound(v / 16);
        if let Some(h) = bcd_number(v / 16) {
            assert(h * 10 + v % 16 <= v) by (nonlinear_arith)
                requires
                    h <= v / 16,
                    v % 16 <= 9,
                    v == 16 * (v / 16) + v % 16,
            ;
        }
    }
}

/// The binary-coded decimal value of `v`, where it has one.
fn bcd_number_of(v: u32) -> (r: Option<u32>)
    ensures
        r matches Some(b) ==> bcd_number(v as nat) == Some(b as nat),
        r is None ==> bcd_number(v as nat) is None,
    decreases v,
{
    if v == 0 {
        return Some(0);
    }
    if v % 16 > 9 {
        return None;
    }
    match bcd_number_of(v / 16) {
        Some(h) => {
            proof {
                lemma_bcd_number_bound((v / 16) as nat);
                assert(h * 10 + v % 16 <= v) by (nonlinear_arith)
                    requires
                        h <= v / 16,
                        v % 16 <= 9,
                        v == 16 * (v / 16) + v % 16,
                ;
            }
            Some(h * 10 + v % 16)
        },
        None => None,
    }
}

impl VersionValidator {
    /// Accepts versions from `min_vgm_version` to `max_vgm_version`, given
    /// either as the number itself or as the binary-coded decimal a header
    /// stores (0x151 for 1.51).
    pub fn validate_version(version: u32, config: &ValidationConfig) -> (r: VgmResult<()>)
        ensures
            r is Ok <==> version_supported(version, *config),
            !version_supported(version, *config) && version < config.min_vgm_version ==> is_version_error(
                r->Err_0,
                version,
                version_text(config.min_vgm_version) + "+"@,
            ),
            !version_supported(version, *config) && config.min_vgm_version <= version ==> is_version_error(
                r->Err_0,
                version,
                version_text(config.min_vgm_version) + "-"@ + version_text(config.max_vgm_version),
            ),
    {
        if config.min_vgm_version <= version && version <= config.max_vgm_version {
            return Ok(());
        }
        if let Some(b) = bcd_number_of(version) {
            if config.min_vgm_version <= b && b <= config.max_vgm_version {
                return Ok(());
            }
        }
        if version < config.min_vgm_version {
            let low = Self::version_to_string(config.min_vgm_version);
            return Err(
                VgmError::UnsupportedVgmVersion { version, supported_range: joined(low.as_str(), "+") },
            );
        }
        if version > config.max_vgm_version {
            let low = Self::version_to_string(config.min_vgm_version);
            let high = Self::version_to_string(config.max_vgm_version);
            let with_dash = joined(low.as_str(), "-");
            return Err(
                VgmError::UnsupportedVgmVersion {
                    version,
                    supported_range: joined(with_dash.as_str(), high.as_str()),
                },
            );
        }
        Ok(())
    }

    /// A version as "major.minor": 151 is "1.51", 100 is "1.00".
    pub fn version_to_string(version: u32) -> (s: String)
        ensures
            s@ == version_text(version),
    {
        let major = version / 100;
        let minor = version % 100;
        let major_text = decimal_string(major as u64);
        let tens = decimal_string((minor / 10) as u64);
        let ones = decimal_string((minor % 10) as u64);
        let with_dot = joined(major_text.as_str(), ".");
        let with_tens = joined(with_dot.as_str(), tens.as_str());
        proof {
            assert(decimal_text((minor / 10) as nat) == digit_text((minor / 10) as int));
            assert(decimal_text((minor % 10) as nat) == digit_text((minor % 10) as int));
        }
        joined(with_tens.as_str(), ones.as_str())
    }
}


/// Checks offsets against the file size.
pub struct OffsetValidator;

/// The error for an offset outside the file.
pub open spec fn is_offset_error(e: VgmError, field: Seq<char>, offset: u32, file_size: usize) -> bool {
    e matches VgmError::InvalidOffset { field: f, offset: o, file_size: s } && f@ == field && o
        == offset && s == file_size
}

impl OffsetValidator {
    /// Accepts an offset that points into the file.
    pub fn validate_offset(offset: u32, file_size: usize, field_name: &str) -> (r: VgmResult<()>)
        ensures
            r is Ok <==> offset < file_size,
            r is Err ==> is_offset_error(r->Err_0, field_name@, offset, file_size),
    {
        if offset as usize >= file_size {
            return Err(VgmError::InvalidOffset { field: String::from_str(field_name), offset, file_size });
        }
        Ok(())
    }

    /// Accepts a range whose end (`offset` + `size`) points into the file.
    pub fn validate_range(offset: u32, size: u32, file_size: usize, field_name: &str) -> (r: VgmResult<()>)
        ensures
            r is Ok <==> offset + size <= u32::MAX && offset + size < file_size,
            offset + size > u32::MAX ==> (r->Err_0 matches VgmError::IntegerOverflow { operation, details }
                && operation@ == field_name@ + " range calculation"@ && details@ == "offset "@
                + decimal_text(offset as nat) + " + size "@ + decimal_text(size as nat)),
            offset + size <= u32::MAX && r is Err ==> is_offset_error(
                r->Err_0,
                field_name@,
                (offset + size) as u32,
                file_size,
            ),
    {
        let end_offset = match offset.checked_add(size) {
            Some(v) => v,
            None => {
                let o = decimal_string(offset as u64);
                let z = decimal_string(size as u64);
                let a = joined("offset ", o.as_str());
                let b = joined(a.as_str(), " + size ");
                return Err(
                    VgmError::IntegerOverflow {
                        operation: joined(field_name, " range calculation"),
                        details: joined(b.as_str(), z.as_str()),
                    },
                );
            },
        };
        Self::validate_offset(end_offset, file_size, field_name)
    }
}

/// Checks chip clocks and volumes.
pub struct ChipValidator;

/// Whether a clock is refused: set, and outside `min_hz`..=`max_hz`.
pub open spec fn clock_out_of_range(clock: u32, min_hz: u32, max_hz: u32) -> bool {
    clock > 0 && (clock < min_hz || clock > max_hz)
}

/// The error for a chip clock outside its range.
pub open spec fn is_clock_error(e: VgmError, chip: Seq<char>, clock: u32, min_hz: u32, max_hz: u32) -> bool {
    e matches VgmError::ValidationFailed { field, reason } && field@ == chip + " clock"@ && reason@
        == "Clock "@ + decimal_text(clock as nat) + " Hz outside valid range "@ + decimal_text(
        min_hz as nat,
    ) + "-"@ + decimal_text(max_hz as nat) + " Hz"@
}

/// The error that the clock checks give a header, where one fails: the
/// SN76489 (1-8 MHz), then the YM2612 (6-8 MHz), then the YM2151 (3-4 MHz).
pub open spec fn chip_clocks_error(h: HeaderData, e: VgmError) -> bool {
    if clock_out_of_range(h.sn76489_clock, 1_000_000, 8_000_000) {
        is_clock_error(e, "SN76489"@, h.sn76489_clock, 1_000_000, 8_000_000)
    } else if clock_out_of_range(h.ym2612_clock, 6_000_000, 8_000_000) {
        is_clock_error(e, "YM2612"@, h.ym2612_clock, 6_000_000, 8_000_000)
    } else {
        is_clock_error(e, "YM2151"@, h.ym2151_clock, 3_000_000, 4_000_000)
    }
}

/// Whether a header's chip clocks pass.
pub open spec fn chip_clocks_ok(h: HeaderData) -> bool {
    &&& !clock_out_of_range(h.sn76489_clock, 1_000_000, 8_000_000)
    &&& !clock_out_of_range(h.ym2612_clock, 6_000_000, 8_000_000)
    &&& !clock_out_of_range(h.ym2151_clock, 3_000_000, 4_000_000)
}

/// The error for a volume modifier over 64.
pub open spec fn is_volume_error(e: VgmError, v: u8) -> bool {
    e matches VgmError::ValidationFailed { field, reason } && field@ == "volume_modifier"@ && reason@
        == "Volume modifier "@ + decimal_text(v as nat) + " exceeds maximum 64"@
}

impl ChipValidator {
    /// Accepts the SN76489, YM2612 and YM2151 clocks where they are unset
    /// or within their ranges.
    pub fn validate_chip_clocks(header: &HeaderData) -> (r: VgmResult<()>)
        ensures
            r is Ok <==> chip_clocks_ok(*header),
            r is Err ==> chip_clocks_error(*header, r->Err_0),
            r is Ok <==> {
                &&& (header.sn76489_clock == 0 || 1_000_000 <= header.sn76489_clock <= 8_000_000)
                &&& (header.ym2612_clock == 0 || 6_000_000 <= header.ym2612_clock <= 8_000_000)
                &&& (header.ym2151_clock == 0 || 3_000_000 <= header.ym2151_clock <= 4_000_000)
            },
    {
        Self::validate_clock_range(header.sn76489_clock, "SN76489", 1_000_000, 8_000_000)?;
        Self::validate_clock_range(header.ym2612_clock, "YM2612", 6_000_000, 8_000_000)?;
        Self::validate_clock_range(header.ym2151_clock, "YM2151", 3_000_000, 4_000_000)?;
        Ok(())
    }

    /// Accepts a clock that is unset (0) or within `min_hz`..=`max_hz`.
    pub fn validate_clock_range(clock: u32, chip_name: &str, min_hz: u32, max_hz: u32) -> (r: VgmResult<()>)
        ensures
            r is Ok <==> !clock_out_of_range(clock, min_hz, max_hz),
            r is Err ==> is_clock_error(r->Err_0, chip_name@, clock, min_hz, max_hz),
    {
        if clock > 0 && (clock < min_hz || clock > max_hz) {
            let c = decimal_string(clock as u64);
            let lo = decimal_string(min_hz as u64);
            let hi = decimal_string(max_hz as u64);
            let a = joined("Clock ", c.as_str());
            let b = joined(a.as_str(), " Hz outside valid range ");
            let d = joined(b.as_str(), lo.as_str());
            let f = joined(d.as_str(), "-");
            let g = joined(f.as_str(), hi.as_str());
            return Err(
                VgmError::ValidationFailed {
                    field: joined(chip_name, " clock"),
                    reason: joined(g.as_str(), " Hz"),
                },
            );
        }
        Ok(())
    }

    /// Accepts a volume modifier of at most 64.
    pub fn validate_chip_volumes(header: &HeaderData) -> (r: VgmResult<()>)
        ensures
            r is Ok <==> header.volume_modifier <= 64,
            r is Err ==> is_volume_error(r->Err_0, header.volume_modifier),
    {
        if header.volume_modifier > 64 {
            let v = decimal_string(header.volume_modifier as u64);
            let a = joined("Volume modifier ", v.as_str());
            return Err(
                VgmError::ValidationFailed {
                    field: String::from_str("volume_modifier"),
                    reason: joined(a.as_str(), " exceeds maximum 64"),
                },
            );
        }
        Ok(())
    }
}


/// The chip whose use a command shows (0 SN76489, 1 YM2612, 2 YM2151, 3
/// YM2413, 4 YM2203, 5 YM2608, 6 YM2610, 7 YM3812, 8 YM3526, 9 Y8950), or -1.
pub open spec fn command_chip(c: Commands) -> int {
    match c {
        Commands::PSGWrite { .. } => 0,
        Commands::YM2612Port0Write { .. } => 1,
        Commands::YM2612Port1Write { .. } => 1,
        Commands::YM2151Write { .. } => 2,
        Commands::YM2413Write { .. } => 3,
        Commands::YM2203Write { .. } => 4,
        Commands::YM2608Port0Write { .. } => 5,
        Commands::YM2608Port1Write { .. } => 5,
        Commands::YM2610Port0Write { .. } => 6,
        Commands::YM2610Port1Write { .. } => 6,
        Commands::YM3812Write { .. } => 7,
        Commands::YM3526Write { .. } => 8,
        Commands::Y8950Write { .. } => 9,
        _ => -1,
    }
}

/// Whether some command shows the use of `chip`.
pub open spec fn chip_used(cs: Seq<Commands>, chip: int) -> bool {
    0 <= chip && exists|i: int| 0 <= i < cs.len() && #[trigger] command_chip(cs[i]) == chip
}

/// The clock that a header gives `chip`.
pub open spec fn chip_clock(h: HeaderData, chip: int) -> u32 {
    if chip == 0 {
        h.sn76489_clock
    } else if chip == 1 {
        h.ym2612_clock
    } else if chip == 2 {
        h.ym2151_clock
    } else if chip == 3 {
        h.ym2413_clock
    } else if chip == 4 {
        h.ym2203_clock
    } else if chip == 5 {
        h.ym2608_clock
    } else if chip == 6 {
        h.ym2610_b_clock
    } else if chip == 7 {
        h.ym3812_clock
    } else if chip == 8 {
        h.ym3526_clock
    } else if chip == 9 {
        h.y8950_clock
    } else {
        0
    }
}

/// The name of `chip` in errors.
pub open spec fn chip_name(chip: int) -> Seq<char> {
    if chip == 0 {
        "SN76489"@
    } else if chip == 1 {
        "YM2612"@
    } else if chip == 2 {
        "YM2151"@
    } else if chip == 3 {
        "YM2413"@
    } else if chip == 4 {
        "YM2203"@
    } else if chip == 5 {
        "YM2608"@
    } else if chip == 6 {
        "YM2610"@
    } else if chip == 7 {
        "YM3812"@
    } else if chip == 8 {
        "YM3526"@
    } else if chip == 9 {
        "Y8950"@
    } else {
        Seq::empty()
    }
}

/// Whether `chip` is used but has no clock.
pub open spec fn chip_missing(cs: Seq<Commands>, h: HeaderData, chip: int) -> bool {
    chip_used(cs, chip) && chip_clock(h, chip) == 0
}

/// The first chip, from `k` on, that is used but has no clock (10 where none is).
pub open spec fn first_missing_chip(cs: Seq<Commands>, h: HeaderData, k: int) -> int
    decreases 10 - k,
{
    if k >= 10 {
        10
    } else if chip_missing(cs, h, k) {
        k
    } else {
        first_missing_chip(cs, h, k + 1)
    }
}

/// The error for a chip that is used but has no clock.
pub open spec fn is_missing_clock_error(e: VgmError, chip: int) -> bool {
    e matches VgmError::InconsistentData { context, reason } && context@ == "Chip usage validation"@
        && reason@ == chip_name(chip) + " commands found but no clock configured"@
}

/// Which chips commands have used so far, by the numbers of `command_chip`.
#[derive(Debug)]
struct ChipUsageTracker {
    used_chips: [bool; 10],
}

/// The chip whose use a command shows, or -1.
fn chip_of(c: &Commands) -> (k: i8)
    ensures
        k == command_chip(*c),
{
    match c {
        Commands::PSGWrite { .. } => 0,
        Commands::YM2612Port0Write { .. } | Commands::YM2612Port1Write { .. } => 1,
        Commands::YM2151Write { .. } => 2,
        Commands::YM2413Write { .. } => 3,
        Commands::YM2203Write { .. } => 4,
        Commands::YM2608Port0Write { .. } | Commands::YM2608Port1Write { .. } => 5,
        Commands::YM2610Port0Write { .. } | Commands::YM2610Port1Write { .. } => 6,
        Commands::YM3812Write { .. } => 7,
        Commands::YM3526Write { .. } => 8,
        Commands::Y8950Write { .. } => 9,
        _ => -1,
    }
}

/// The clock that a header gives `chip`.
fn clock_of(h: &HeaderData, chip: usize) -> (c: u32)
    ensures
        c == chip_clock(*h, chip as int),
{
    if chip == 0 {
        h.sn76489_clock
    } else if chip == 1 {
        h.ym2612_clock
    } else if chip == 2 {
        h.ym2151_clock
    } else if chip == 3 {
        h.ym2413_clock
    } else if chip == 4 {
        h.ym2203_clock
    } else if chip == 5 {
        h.ym2608_clock
    } else if chip == 6 {
        h.ym2610_b_clock
    } else if chip == 7 {
        h.ym3812_clock
    } else if chip == 8 {
        h.ym3526_clock
    } else if chip == 9 {
        h.y8950_clock
    } else {
        0
    }
}

/// The name of `chip` in errors.
fn chip_name_str(chip: usize) -> (s: &'static str)
    requires
        chip < 10,
    ensures
        s@ == chip_name(chip as int),
{
    if chip == 0 {
        "SN76489"
    } else if chip == 1 {
        "YM2612"
    } else if chip == 2 {
        "YM2151"
    } else if chip == 3 {
        "YM2413"
    } else if chip == 4 {
        "YM2203"
    } else if chip == 5 {
        "YM2608"
    } else if chip == 6 {
        "YM2610"
    } else if chip == 7 {
        "YM3812"
    } else if chip == 8 {
        "YM3526"
    } else if chip == 9 {
        "Y8950"
    } else {
        ""
    }
}

proof fn lemma_first_missing_from(cs: Seq<Commands>, h: HeaderData, k: int)
    requires
        0 <= k <= 10,
        forall|j: int| 0 <= j < k ==> !chip_missing(cs, h, j),
    ensures
        first_missing_chip(cs, h, 0) == first_missing_chip(cs, h, k),
    decreases k,
{
    if k > 0 {
        lemma_first_missing_from(cs, h, k - 1);
    }
}

proof fn lemma_first_missing_range(cs: Seq<Commands>, h: HeaderData, k: int)
    requires
        0 <= k <= 10,
    ensures
        k <= first_missing_chip(cs, h, k) <= 10,
        first_missing_chip(cs, h, k) < 10 ==> chip_missing(cs, h, first_missing_chip(cs, h, k)),
    decreases 10 - k,
{
    if k < 10 {
        lemma_first_missing_range(cs, h, k + 1);
    }
}

impl ChipUsageTracker {
    /// Whether `chip` was used.
    spec fn used(&self, chip: int) -> bool {
        0 <= chip < 10 && self.used_chips@[chip]
    }

    /// No chip used yet.
    fn new() -> (t: Self)
        ensures
            forall|chip: int| !t.used(chip),
    {
        ChipUsageTracker { used_chips: [false; 10] }
    }

    /// Records the chip whose use the command shows.
    fn track_command(&mut self, command: &Commands)
        ensures
            forall|chip: int|
                final(self).used(chip) <==> old(self).used(chip) || (chip >= 0 && command_chip(*command)
                    == chip),
    {
        let k = chip_of(command);
        let ghost before = self.used_chips@;
        if k >= 0 {
            self.used_chips.set(k as usize, true);
        }
        assert forall|chip: int|
            self.used(chip) <==> (0 <= chip < 10 && before[chip]) || (chip >= 0 && command_chip(*command)
                == chip) by {
            assert(self.used_chips@.len() == 10);
            assert(before.len() == 10);
        }
    }

    /// Refuses the first used chip (in the order of `command_chip`) whose
    /// clock is 0.
    fn validate_against_header(&self, header: &HeaderData, Ghost(cs): Ghost<Seq<Commands>>) -> (r: VgmResult<()>)
        requires
            forall|chip: int| self.used(chip) <==> chip_used(cs, chip),
        ensures
            r is Ok <==> first_missing_chip(cs, *header, 0) == 10,
            r is Err ==> is_missing_clock_error(r->Err_0, first_missing_chip(cs, *header, 0)),
    {
        let mut k: usize = 0;
        while k < 10
            invariant
                k <= 10,
                forall|chip: int| self.used(chip) <==> chip_used(cs, chip),
                forall|j: int| 0 <= j < k ==> !chip_missing(cs, *header, j),
            decreases 10 - k,
        {
            proof {
                lemma_first_missing_from(cs, *header, k as int);
            }
            if self.used_chips[k] && clock_of(header, k) == 0 {
                assert(chip_missing(cs, *header, k as int));
                return Err(
                    VgmError::InconsistentData {
                        context: String::from_str("Chip usage validation"),
                        reason: joined(chip_name_str(k), " commands found but no clock configured"),
                    },
                );
            }
            k += 1;
        }
        proof {
            lemma_first_missing_from(cs, *header, 10);
        }
        Ok(())
    }
}


/// Checks that offsets, commands and the header agree.
pub struct ConsistencyValidator;

/// Whether adding the set offsets of `o` to their bases, from the `k`th
/// on, stays within 32 bits up to the first that points beyond the file
/// (each entry: whether it is set, and the offset with its base).
pub open spec fn offset_sums_fit(o: Seq<(bool, int)>, k: int, file_size: usize) -> bool
    decreases o.len() - k,
{
    if k < 0 || k >= o.len() {
        true
    } else if !o[k].0 {
        offset_sums_fit(o, k + 1, file_size)
    } else if o[k].1 > u32::MAX {
        false
    } else if o[k].1 >= file_size {
        true
    } else {
        offset_sums_fit(o, k + 1, file_size)
    }
}

/// The offsets with their bases, in the order in which validating a header
/// checks them: GD3, VGM data, loop, extra header.
pub open spec fn header_offset_sums(h: HeaderData) -> Seq<(bool, int)> {
    seq![
        (h.gd3_offset > 0, h.gd3_offset + 0x14),
        (h.vgm_data_offset > 0, h.vgm_data_offset + 0x34),
        (h.loop_offset > 0, h.loop_offset + 0x1C),
        (h.extra_header_offset > 0, h.extra_header_offset + 0xBC),
    ]
}

/// The offsets with their bases, in the order in which the consistency
/// check takes them: VGM data, GD3, loop, extra header.
pub open spec fn consistency_offset_sums(h: HeaderData) -> Seq<(bool, int)> {
    seq![
        (h.vgm_data_offset > 0, h.vgm_data_offset + 0x34),
        (h.gd3_offset > 0, h.gd3_offset + 0x14),
        (h.loop_offset > 0, h.loop_offset + 0x1C),
        (h.extra_header_offset > 0, h.extra_header_offset + 0xBC),
    ]
}

/// Whether validating `h` in `ctx` adds no offset beyond 32 bits: where the
/// version, clocks and volume pass, the offsets are added in turn until one
/// points beyond the file.
pub open spec fn header_validation_defined(h: HeaderData, ctx: ValidationContext) -> bool {
    header_early_ok(h, ctx) ==> offset_sums_fit(header_offset_sums(h), 0, ctx.file_size)
}

/// The offsets that `validate_header_consistency` checks, in order: each
/// set offset (with its base) must point into the file.
pub open spec fn consistency_offsets(h: HeaderData) -> Seq<(bool, u32, Seq<char>)> {
    seq![
        (h.vgm_data_offset > 0, (h.vgm_data_offset + 0x34) as u32, "vgm_data_offset"@),
        (h.gd3_offset > 0, (h.gd3_offset + 0x14) as u32, "gd3_offset"@),
        (h.loop_offset > 0, (h.loop_offset + 0x1C) as u32, "loop_offset"@),
        (h.extra_header_offset > 0, (h.extra_header_offset + 0xBC) as u32, "extra_header_offset"@),
    ]
}

/// Whether the `k`th entry of a list of offsets fails against the file size.
pub open spec fn offset_fails(o: Seq<(bool, u32, Seq<char>)>, k: int, file_size: usize) -> bool {
    o[k].0 && o[k].1 >= file_size
}

/// The first failing entry of a list of offsets, from the `k`th on (its
/// length where none fails).
pub open spec fn first_bad_offset(o: Seq<(bool, u32, Seq<char>)>, k: int, file_size: usize) -> int
    decreases o.len() - k,
{
    if k >= o.len() {
        o.len() as int
    } else if offset_fails(o, k, file_size) {
        k
    } else {
        first_bad_offset(o, k + 1, file_size)
    }
}

/// What checking a list of offsets gives.
pub open spec fn offsets_result(o: Seq<(bool, u32, Seq<char>)>, file_size: usize, r: VgmResult<()>) -> bool {
    let k = first_bad_offset(o, 0, file_size);
    if k < o.len() {
        r is Err && is_offset_error(r->Err_0, o[k].2, o[k].1, file_size)
    } else {
        r is Ok
    }
}

/// The offsets of a header that passes validation, with their bases, fit
/// in 32 bits and point into the file, so the consistency check can add them.
proof fn lemma_valid_header_offsets_fit(h: HeaderData, ctx: ValidationContext)
    requires
        header_validation_defined(h, ctx),
        header_validation(h, ctx, Ok(())),
    ensures
        offset_sums_fit(consistency_offset_sums(h), 0, ctx.file_size),
{
    reveal_with_fuel(first_bad_offset, 5);
    reveal_with_fuel(offset_sums_fit, 5);
}

impl ConsistencyValidator {
    /// Accepts a header whose set offsets (VGM data, GD3, loop, extra header)
    /// point into the file.
    pub fn validate_header_consistency(header: &HeaderData, file_size: usize) -> (r: VgmResult<()>)
        requires
            offset_sums_fit(consistency_offset_sums(*header), 0, file_size),
        ensures
            offsets_result(consistency_offsets(*header), file_size, r),
    {
        let ghost o = consistency_offsets(*header);
        proof {
            reveal_with_fuel(first_bad_offset, 5);
            reveal_with_fuel(offset_sums_fit, 5);
        }
        if header.vgm_data_offset > 0 {
            OffsetValidator::validate_offset(header.vgm_data_offset + 0x34, file_size, "vgm_data_offset")?;
        }
        if header.gd3_offset > 0 {
            OffsetValidator::validate_offset(header.gd3_offset + 0x14, file_size, "gd3_offset")?;
        }
        if header.loop_offset > 0 {
            OffsetValidator::validate_offset(header.loop_offset + 0x1C, file_size, "loop_offset")?;
        }
        if header.extra_header_offset > 0 {
            OffsetValidator::validate_offset(
                header.extra_header_offset + 0xBC,
                file_size,
                "extra_header_offset",
            )?;
        }
        Ok(())
    }

    /// Accepts commands whose chips (SN76489, YM2612, YM2151, YM2413, YM2203,
    /// YM2608, YM2610, YM3812, YM3526, Y8950) all have a clock in the header.
    pub fn validate_commands_consistency(header: &HeaderData, commands: &[Commands]) -> (r: VgmResult<()>)
        ensures
            r is Ok <==> first_missing_chip(commands@, *header, 0) == 10,
            r is Err ==> is_missing_clock_error(r->Err_0, first_missing_chip(commands@, *header, 0)),
            r is Ok <==> forall|i: int| 0 <= i < commands@.len() ==> #[trigger] own_clock_set(commands@[i], *header),
    {
        proof {
            lemma_chip_usage_needs_own_clock(commands@, *header);
        }
        let mut chip_usage = ChipUsageTracker::new();
        let mut i: usize = 0;
        while i < commands.len()
            invariant
                i <= commands@.len(),
                forall|chip: int|
                    chip_usage.used(chip) <==> chip_used(commands@.take(i as int), chip),
            decreases commands@.len() - i,
        {
            chip_usage.track_command(&commands[i]);
            proof {
                let t = commands@.take(i + 1);
                assert forall|chip: int|
                    chip_usage.used(chip) <==> chip_used(t, chip) by {
                    if chip_used(t, chip) {
                        let w = choose|w: int| 0 <= w < t.len() && #[trigger] command_chip(t[w]) == chip;
                        if w < i {
                            assert(commands@.take(i as int)[w] == t[w]);
                        }
                    }
                    if chip_used(commands@.take(i as int), chip) {
                        let w = choose|w: int|
                            0 <= w < i && #[trigger] command_chip(commands@.take(i as int)[w]) == chip;
                        assert(t[w] == commands@.take(i as int)[w]);
                    }
                    if chip >= 0 && command_chip(commands@[i as int]) == chip {
                        assert(t[i as int] == commands@[i as int]);
                    }
                }
            }
            i += 1;
        }
        assert(commands@.take(i as int) =~= commands@);
        chip_usage.validate_against_header(header, Ghost(commands@))
    }
}


/// The offsets that header validation checks, in order.
pub open spec fn header_offsets(h: HeaderData) -> Seq<(bool, u32, Seq<char>)> {
    seq![
        (h.gd3_offset > 0, (h.gd3_offset + 0x14) as u32, "gd3_offset"@),
        (h.vgm_data_offset > 0, (h.vgm_data_offset + 0x34) as u32, "vgm_data_offset"@),
        (h.loop_offset > 0, (h.loop_offset + 0x1C) as u32, "loop_offset"@),
        (h.extra_header_offset > 0, (h.extra_header_offset + 0xBC) as u32, "extra_header_offset"@),
    ]
}

/// Whether a header's play time (samples at its rate) is over an hour.
pub open spec fn too_long(h: HeaderData) -> bool {
    h.total_nb_samples > 0 && h.rate > 0 && h.total_nb_samples > 3600 * h.rate
}

/// The play time in seconds, rounded to one decimal (halves up), as text.
pub open spec fn duration_text(total: u32, rate: u32) -> Seq<char> {
    let tenths = (20 * total + rate) / (2 * rate);
    decimal_text((tenths / 10) as nat) + "."@ + digit_text(tenths % 10)
}

/// Whether a header's sample rate is set but outside 8000-192000 Hz.
pub open spec fn rate_out_of_range(h: HeaderData) -> bool {
    h.rate > 0 && (h.rate < 8000 || h.rate > 192000)
}

/// Whether each check of `HeaderData::validate` passes up to the offsets.
pub open spec fn header_early_ok(h: HeaderData, ctx: ValidationContext) -> bool {
    &&& version_supported(h.version, ctx.config)
    &&& chip_clocks_ok(h)
    &&& h.volume_modifier <= 64
}

/// What validating a header gives: the error of the first check that fails.
pub open spec fn header_validation(h: HeaderData, ctx: ValidationContext, r: VgmResult<()>) -> bool {
    let c = ctx.config;
    let o = header_offsets(h);
    if !version_supported(h.version, c) {
        r is Err && if h.version < c.min_vgm_version {
            is_version_error(r->Err_0, h.version, version_text(c.min_vgm_version) + "+"@)
        } else {
            is_version_error(
                r->Err_0,
                h.version,
                version_text(c.min_vgm_version) + "-"@ + version_text(c.max_vgm_version),
            )
        }
    } else if !chip_clocks_ok(h) {
        r is Err && chip_clocks_error(h, r->Err_0)
    } else if h.volume_modifier > 64 {
        r is Err && is_volume_error(r->Err_0, h.volume_modifier)
    } else if first_bad_offset(o, 0, ctx.file_size) < 4 {
        offsets_result(o, ctx.file_size, r)
    } else if too_long(h) {
        r is Err && (r->Err_0 matches VgmError::ValidationFailed { field, reason } && field@
            == "total_nb_samples"@ && reason@ == "Duration "@ + duration_text(
            h.total_nb_samples,
            h.rate,
        ) + " seconds exceeds reasonable limit"@)
    } else if h.loop_offset > 0 && h.loop_nb_samples == 0 {
        r is Err && (r->Err_0 matches VgmError::InconsistentData { context, reason } && context@
            == "Loop configuration"@ && reason@
            == "Loop offset specified but loop sample count is zero"@)
    } else if rate_out_of_range(h) {
        r is Err && (r->Err_0 matches VgmError::ValidationFailed { field, reason } && field@ == "rate"@
            && reason@ == "Sample rate "@ + decimal_text(h.rate as nat)
            + " Hz outside valid range 8000-192000 Hz"@)
    } else {
        r is Ok
    }
}

impl HeaderData {
    /// Validates a header: its version, chip clocks and volume, that its
    /// set offsets point into the file, a play time of at most an hour, a
    /// loop with samples, and a sample rate of 8000-192000 Hz where set.
    pub fn validate(&self, context: &ValidationContext) -> (r: VgmResult<()>)
        requires
            header_validation_defined(*self, *context),
        ensures
            header_validation(*self, *context, r),
    {
        VersionValidator::validate_version(self.version, &context.config)?;
        ChipValidator::validate_chip_clocks(self)?;
        ChipValidator::validate_chip_volumes(self)?;
        let ghost o = header_offsets(*self);
        proof {
            reveal_with_fuel(first_bad_offset, 5);
            reveal_with_fuel(offset_sums_fit, 5);
        }
        if self.gd3_offset > 0 {
            OffsetValidator::validate_offset(self.gd3_offset + 0x14, context.file_size, "gd3_offset")?;
        }
        if self.vgm_data_offset > 0 {
            OffsetValidator::validate_offset(
                self.vgm_data_offset + 0x34,
                context.file_size,
                "vgm_data_offset",
            )?;
        }
        if self.loop_offset > 0 {
            OffsetValidator::validate_offset(self.loop_offset + 0x1C, context.file_size, "loop_offset")?;
        }
        if self.extra_header_offset > 0 {
            OffsetValidator::validate_offset(
                self.extra_header_offset + 0xBC,
                context.file_size,
                "extra_header_offset",
            )?;
        }
        if self.total_nb_samples > 0 && self.rate > 0 {
            let total = self.total_nb_samples as u64;
            let rate = self.rate as u64;
            if total > 3600 * rate {
                let tenths = (20 * total + rate) / (2 * rate);
                let whole = decimal_string(tenths / 10);
                let frac = decimal_string(tenths % 10);
                let a = joined("Duration ", whole.as_str());
                let b = joined(a.as_str(), ".");
                let c = joined(b.as_str(), frac.as_str());
                proof {
                    assert(decimal_text((tenths % 10) as nat) == digit_text((tenths % 10) as int));
                }
                let reason = joined(c.as_str(), " seconds exceeds reasonable limit");
                assert(reason@ =~= "Duration "@ + duration_text(self.total_nb_samples, self.rate)
                    + " seconds exceeds reasonable limit"@);
                return Err(
                    VgmError::ValidationFailed { field: String::from_str("total_nb_samples"), reason },
                );
            }
        }
        if self.loop_offset > 0 && self.loop_nb_samples == 0 {
            return Err(
                VgmError::InconsistentData {
                    context: String::from_str("Loop configuration"),
                    reason: String::from_str("Loop offset specified but loop sample count is zero"),
                },
            );
        }
        if self.rate > 0 && (self.rate < 8000 || self.rate > 192000) {
            let r = decimal_string(self.rate as u64);
            let a = joined("Sample rate ", r.as_str());
            return Err(
                VgmError::ValidationFailed {
                    field: String::from_str("rate"),
                    reason: joined(a.as_str(), " Hz outside valid range 8000-192000 Hz"),
                },
            );
        }
        Ok(())
    }
}


/// The texts of metadata in the order in which validation checks them.
pub open spec fn metadata_texts(m: VgmMetadata) -> Seq<Seq<char>> {
    seq![
        m.english_data.track@,
        m.english_data.game@,
        m.english_data.system@,
        m.english_data.author@,
        m.japanese_data.track@,
        m.japanese_data.game@,
        m.japanese_data.system@,
        m.japanese_data.author@,
        m.date_release@,
        m.name_vgm_creator@,
        m.notes@,
    ]
}

/// The field name of the `k`th text in validation errors.
pub open spec fn metadata_field(k: int) -> Seq<char> {
    if k == 0 {
        "english_track"@
    } else if k == 1 {
        "english_game"@
    } else if k == 2 {
        "english_system"@
    } else if k == 3 {
        "english_author"@
    } else if k == 4 {
        "japanese_track"@
    } else if k == 5 {
        "japanese_game"@
    } else if k == 6 {
        "japanese_system"@
    } else if k == 7 {
        "japanese_author"@
    } else if k == 8 {
        "date_release"@
    } else if k == 9 {
        "name_vgm_creator"@
    } else if k == 10 {
        "notes"@
    } else {
        Seq::empty()
    }
}

/// The field name of the `k`th text in validation errors.
fn metadata_field_str(k: usize) -> (s: &'static str)
    requires
        k < 11,
    ensures
        s@ == metadata_field(k as int),
{
    if k == 0 {
        "english_track"
    } else if k == 1 {
        "english_game"
    } else if k == 2 {
        "english_system"
    } else if k == 3 {
        "english_author"
    } else if k == 4 {
        "japanese_track"
    } else if k == 5 {
        "japanese_game"
    } else if k == 6 {
        "japanese_system"
    } else if k == 7 {
        "japanese_author"
    } else if k == 8 {
        "date_release"
    } else if k == 9 {
        "name_vgm_creator"
    } else if k == 10 {
        "notes"
    } else {
        "notes"
    }
}

/// The number of UTF-8 bytes of a text.
pub open spec fn utf8_len(t: Seq<char>) -> nat {
    vstd::utf8::encode_utf8(t).len()
}

/// The first text, from the `k`th on, longer than 1024 UTF-8 bytes (11 where none is).
pub open spec fn first_long_text(ts: Seq<Seq<char>>, k: int) -> int
    decreases 11 - k,
{
    if k >= 11 {
        11
    } else if utf8_len(ts[k]) > 1024 {
        k
    } else {
        first_long_text(ts, k + 1)
    }
}

/// The first text, from the `k`th on, that holds a NUL character (11 where none does).
pub open spec fn first_nul_text(ts: Seq<Seq<char>>, k: int) -> int
    decreases 11 - k,
{
    if k >= 11 {
        11
    } else if ts[k].contains('\0') {
        k
    } else {
        first_nul_text(ts, k + 1)
    }
}

/// What validating metadata gives: the first text over 1024 UTF-8 bytes is
/// refused, then the first that holds a NUL character.
pub open spec fn metadata_validation(m: VgmMetadata, r: VgmResult<()>) -> bool {
    let ts = metadata_texts(m);
    let k = first_long_text(ts, 0);
    let z = first_nul_text(ts, 0);
    if k < 11 {
        r is Err && (r->Err_0 matches VgmError::ValidationFailed { field, reason } && field@
            == metadata_field(k) && reason@ == "String length "@ + decimal_text(utf8_len(ts[k]))
            + " exceeds maximum 1024"@)
    } else if z < 11 {
        r is Err && (r->Err_0 matches VgmError::ValidationFailed { field, reason } && field@
            == metadata_field(z) && reason@ == "String contains null bytes"@)
    } else {
        r is Ok
    }
}

/// Whether a text holds a NUL character.
fn has_nul(t: &str) -> (b: bool)
    ensures
        b == t@.contains('\0'),
{
    let n = t.unicode_len();
    let mut i: usize = 0;
    while i < n
        invariant
            n == t@.len(),
            i <= n,
            forall|j: int| 0 <= j < i ==> t@[j] != '\0',
        decreases n - i,
    {
        if t.get_char(i) == '\0' {
            return true;
        }
        i += 1;
    }
    false
}

proof fn lemma_first_long_from(ts: Seq<Seq<char>>, k: int)
    requires
        0 <= k <= 11,
        forall|j: int| 0 <= j < k ==> utf8_len(#[trigger] ts[j]) <= 1024,
    ensures
        first_long_text(ts, 0) == first_long_text(ts, k),
    decreases k,
{
    if k > 0 {
        lemma_first_long_from(ts, k - 1);
    }
}

proof fn lemma_first_nul_from(ts: Seq<Seq<char>>, k: int)
    requires
        0 <= k <= 11,
        forall|j: int| 0 <= j < k ==> !(#[trigger] ts[j]).contains('\0'),
    ensures
        first_nul_text(ts, 0) == first_nul_text(ts, k),
    decreases k,
{
    if k > 0 {
        lemma_first_nul_from(ts, k - 1);
    }
}

impl VgmMetadata {
    /// The `k`th text, in the order of validation.
    fn text(&self, k: usize) -> (t: &str)
        requires
            k < 11,
        ensures
            t@ == metadata_texts(*self)[k as int],
    {
        if k == 0 {
            self.english_data.track.as_str()
        } else if k == 1 {
            self.english_data.game.as_str()
        } else if k == 2 {
            self.english_data.system.as_str()
        } else if k == 3 {
            self.english_data.author.as_str()
        } else if k == 4 {
            self.japanese_data.track.as_str()
        } else if k == 5 {
            self.japanese_data.game.as_str()
        } else if k == 6 {
            self.japanese_data.system.as_str()
        } else if k == 7 {
            self.japanese_data.author.as_str()
        } else if k == 8 {
            self.date_release.as_str()
        } else if k == 9 {
            self.name_vgm_creator.as_str()
        } else {
            self.notes.as_str()
        }
    }
}

impl VgmValidate for VgmMetadata {
    open spec fn validation_result(&self, context: ValidationContext, r: VgmResult<()>) -> bool {
        metadata_validation(*self, r)
    }

    /// Refuses a text longer than 1024 UTF-8 bytes, then one that holds a
    /// NUL character.
    fn validate(&self, _context: &ValidationContext) -> (r: VgmResult<()>)
        ensures
            metadata_validation(*self, r),
    {
        let ghost ts = metadata_texts(*self);
        let mut k: usize = 0;
        while k < 11
            invariant
                ts == metadata_texts(*self),
                k <= 11,
                forall|j: int| 0 <= j < k ==> utf8_len(#[trigger] ts[j]) <= 1024,
            decreases 11 - k,
        {
            let t = self.text(k);
            let len = t.as_bytes().len();
            if len > 1024 {
                proof {
                    lemma_first_long_from(ts, k as int);
                }
                let n = decimal_string(len as u64);
                let a = joined("String length ", n.as_str());
                return Err(
                    VgmError::ValidationFailed {
                        field: String::from_str(metadata_field_str(k)),
                        reason: joined(a.as_str(), " exceeds maximum 1024"),
                    },
                );
            }
            k += 1;
        }
        proof {
            lemma_first_long_from(ts, 11);
        }
        let mut k: usize = 0;
        while k < 11
            invariant
                ts == metadata_texts(*self),
                first_long_text(ts, 0) == 11,
                k <= 11,
                forall|j: int| 0 <= j < k ==> !(#[trigger] ts[j]).contains('\0'),
            decreases 11 - k,
        {
            if has_nul(self.text(k)) {
                proof {
                    lemma_first_nul_from(ts, k as int);
                }
                return Err(
                    VgmError::ValidationFailed {
                        field: String::from_str(metadata_field_str(k)),
                        reason: String::from_str("String contains null bytes"),
                    },
                );
            }
            k += 1;
        }
        proof {
            lemma_first_nul_from(ts, 11);
        }
        Ok(())
    }
}


/// Runs all the checks of a VGM file with one configuration.
pub struct VgmValidator {
    config: ValidationConfig,
}

/// Whether a header passes `HeaderData::validate`.
pub open spec fn header_valid(h: HeaderData, ctx: ValidationContext) -> bool {
    header_validation(h, ctx, Ok(()))
}

/// Whether metadata passes validation.
pub open spec fn metadata_valid(m: VgmMetadata) -> bool {
    metadata_validation(m, Ok(()))
}

/// What validating a whole file gives: the header's checks, the number of
/// commands, the metadata's checks, the header's offsets, then the chips
/// that the commands use; the first that fails gives the error.
pub open spec fn file_validation(
    config: ValidationConfig,
    h: HeaderData,
    cs: Seq<Commands>,
    m: VgmMetadata,
    file_size: usize,
    r: VgmResult<()>,
) -> bool {
    let ctx = ValidationContext { file_size, config };
    if !header_valid(h, ctx) {
        header_validation(h, ctx, r)
    } else if cs.len() > config.max_commands {
        r is Err && is_size_error(r->Err_0, "commands"@, cs.len() as int, config.max_commands as int)
    } else if !metadata_valid(m) {
        metadata_validation(m, r)
    } else if first_bad_offset(consistency_offsets(h), 0, file_size) < 4 {
        offsets_result(consistency_offsets(h), file_size, r)
    } else if first_missing_chip(cs, h, 0) < 10 {
        r is Err && is_missing_clock_error(r->Err_0, first_missing_chip(cs, h, 0))
    } else {
        r is Ok
    }
}

impl VgmValidator {
    /// A validator with the given limits.
    pub fn new(config: ValidationConfig) -> (v: Self)
        ensures
            v.limits() == config,
    {
        VgmValidator { config }
    }

    /// A validator with the default limits.
    pub fn default() -> (v: Self)
        ensures
            v.limits() == default_validation(),
    {
        Self::new(ValidationConfig::default())
    }

    /// The limits that the validator applies.
    pub closed spec fn limits(&self) -> ValidationConfig {
        self.config
    }

    /// Validates a whole file: see `file_validation`.
    pub fn validate_vgm_file(&self, header: &HeaderData, commands: &[Commands], metadata: &VgmMetadata, file_size: usize) -> (r:
        VgmResult<()>)
        requires
            header_validation_defined(*header, ValidationContext { file_size, config: self.limits() }),
        ensures
            file_validation(self.limits(), *header, commands@, *metadata, file_size, r),
    {
        let config = ValidationConfig {
            min_vgm_version: self.config.min_vgm_version,
            max_vgm_version: self.config.max_vgm_version,
            max_file_size: self.config.max_file_size,
            max_commands: self.config.max_commands,
            max_data_block_size: self.config.max_data_block_size,
            strict_mode: self.config.strict_mode,
        };
        let context = ValidationContext { file_size, config };
        VersionValidator::validate_version(header.version, &self.config)?;
        header.validate(&context)?;
        if commands.len() > self.config.max_commands {
            return Err(
                VgmError::DataSizeExceedsLimit {
                    field: String::from_str("commands"),
                    size: commands.len(),
                    limit: self.config.max_commands,
                },
            );
        }
        metadata.validate(&context)?;
        proof {
            lemma_valid_header_offsets_fit(*header, context);
        }
        ConsistencyValidator::validate_header_consistency(header, file_size)?;
        proof {
            lemma_first_missing_range(commands@, *header, 0);
        }
        ConsistencyValidator::validate_commands_consistency(header, commands)?;
        Ok(())
    }

    /// Whether validating `header` against a file of `file_size` bytes adds
    /// no offset beyond 32 bits (what `validate_vgm_file` requires).
    pub fn can_validate(&self, header: &HeaderData, file_size: usize) -> (b: bool)
        ensures
            b == header_validation_defined(*header, ValidationContext { file_size, config: self.limits() }),
    {
        let ghost ctx = ValidationContext { file_size, config: self.limits() };
        let early = VersionValidator::validate_version(header.version, &self.config).is_ok()
            && ChipValidator::validate_chip_clocks(header).is_ok() && header.volume_modifier <= 64;
        if !early {
            return true;
        }
        let ghost o = header_offset_sums(*header);
        let offsets: [(u32, u64); 4] = [
            (header.gd3_offset, 0x14),
            (header.vgm_data_offset, 0x34),
            (header.loop_offset, 0x1C),
            (header.extra_header_offset, 0xBC),
        ];
        let mut k: usize = 0;
        while k < 4
            invariant
                k <= 4,
                ctx == (ValidationContext { file_size, config: self.limits() }),
                header_early_ok(*header, ctx),
                o == header_offset_sums(*header),
                offsets@ == seq![
                    (header.gd3_offset, 0x14u64),
                    (header.vgm_data_offset, 0x34u64),
                    (header.loop_offset, 0x1Cu64),
                    (header.extra_header_offset, 0xBCu64),
                ],
                offset_sums_fit(o, 0, file_size) == offset_sums_fit(o, k as int, file_size),
            decreases 4 - k,
        {
            let (offset, base) = offsets[k];
            assert(o[k as int].0 == (offset > 0) && o[k as int].1 == offset + base);
            if offset != 0 {
                let sum = offset as u64 + base;
                if sum > 0xFFFF_FFFF {
                    return false;
                }
                if sum >= file_size as u64 {
                    return true;
                }
            }
            k += 1;
        }
        true
    }

    /// Checks the version, chip clocks and volume of a header only.
    pub fn quick_validate_header(&self, header: &HeaderData) -> (r: VgmResult<()>)
        ensures
            r is Ok <==> header_early_ok(*header, ValidationContext { file_size: 0, config: self.limits() }),
            !version_supported(header.version, self.limits()) ==> header_validation(
                *header,
                ValidationContext { file_size: 0, config: self.limits() },
                r,
            ),
            version_supported(header.version, self.limits()) && !chip_clocks_ok(*header) ==> chip_clocks_error(*header, r->Err_0),
            version_supported(header.version, self.limits()) && chip_clocks_ok(*header)
                && header.volume_modifier > 64 ==> is_volume_error(
                r->Err_0,
                header.volume_modifier,
            ),
    {
        VersionValidator::validate_version(header.version, &self.config)?;
        ChipValidator::validate_chip_clocks(header)?;
        ChipValidator::validate_chip_volumes(header)?;
        Ok(())
    }
}

/// From chip `k` on, no chip is used without a clock exactly when
/// `first_missing_chip` finds none.
proof fn lemma_first_missing_none(cs: Seq<Commands>, h: HeaderData, k: int)
    requires
        0 <= k <= 10,
    ensures
        first_missing_chip(cs, h, k) == 10 <==> forall|j: int| k <= j < 10 ==> !#[trigger] chip_missing(cs, h, j),
    decreases 10 - k,
{
    if k < 10 {
        lemma_first_missing_none(cs, h, k + 1);
        lemma_first_missing_range(cs, h, k + 1);
    }
}

/// Whether the header has a clock for the chip that command `c` writes to:
/// PSG writes need `sn76489_clock`, YM2612 writes (either port)
/// `ym2612_clock`, YM2151 writes `ym2151_clock`, YM2413 writes
/// `ym2413_clock`, YM2203 writes `ym2203_clock`, YM2608 writes
/// `ym2608_clock`, YM2610 writes `ym2610_b_clock`, YM3812 writes
/// `ym3812_clock`, YM3526 writes `ym3526_clock`, Y8950 writes `y8950_clock`;
/// other commands need no clock.
pub open spec fn own_clock_set(c: Commands, h: HeaderData) -> bool {
    match c {
        Commands::PSGWrite { .. } => h.sn76489_clock != 0,
        Commands::YM2612Port0Write { .. } => h.ym2612_clock != 0,
        Commands::YM2612Port1Write { .. } => h.ym2612_clock != 0,
        Commands::YM2151Write { .. } => h.ym2151_clock != 0,
        Commands::YM2413Write { .. } => h.ym2413_clock != 0,
        Commands::YM2203Write { .. } => h.ym2203_clock != 0,
        Commands::YM2608Port0Write { .. } => h.ym2608_clock != 0,
        Commands::YM2608Port1Write { .. } => h.ym2608_clock != 0,
        Commands::YM2610Port0Write { .. } => h.ym2610_b_clock != 0,
        Commands::YM2610Port1Write { .. } => h.ym2610_b_clock != 0,
        Commands::YM3812Write { .. } => h.ym3812_clock != 0,
        Commands::YM3526Write { .. } => h.ym3526_clock != 0,
        Commands::Y8950Write { .. } => h.y8950_clock != 0,
        _ => true,
    }
}

/// Chip usage passes exactly when the header has a clock for each
/// command's own chip (`own_clock_set`): a chip is refused only where one
/// of its commands occurs and its own clock is 0.
pub proof fn lemma_chip_usage_needs_own_clock(cs: Seq<Commands>, h: HeaderData)
    ensures
        first_missing_chip(cs, h, 0) == 10 <==> forall|i: int| 0 <= i < cs.len() ==> #[trigger] own_clock_set(cs[i], h),
{
    lemma_first_missing_none(cs, h, 0);
    if first_missing_chip(cs, h, 0) == 10 {
        assert forall|i: int| 0 <= i < cs.len() implies #[trigger] own_clock_set(cs[i], h) by {
            let j = command_chip(cs[i]);
            if 0 <= j {
                assert(chip_used(cs, j));
                assert(!chip_missing(cs, h, j));
            }
        }
    } else {
        let j = first_missing_chip(cs, h, 0);
        lemma_first_missing_range(cs, h, 0);
        assert(chip_missing(cs, h, j));
        let i = choose|i: int| 0 <= i < cs.len() && #[trigger] command_chip(cs[i]) == j;
        assert(!own_clock_set(cs[i], h));
    }
}

} // verus!

//! Resource limits for parsing, and the tracker that holds a parse to them.

use crate::errors::{VgmError, VgmResult};
use vstd::prelude::*;
use vstd::string::StringExecFns;

verus! {

/// Limits on the resources that parsing may use.
///
/// It is separate from the validation configuration, which judges what was parsed.
#[derive(Debug, Clone)]
pub struct ParserConfig {
    /// Maximum number of commands to parse.
    pub max_commands: usize,
    /// Maximum size of one data block (bytes).
    pub max_data_block_size: u32,
    /// Maximum total size of the data blocks of a file (bytes).
    pub max_total_data_block_memory: usize,
    /// Maximum size of the metadata section (bytes).
    pub max_metadata_size: usize,
    /// Maximum number of chip clock entries in the extra header.
    pub max_chip_clock_entries: u8,
    /// Maximum number of chip volume entries in the extra header.
    pub max_chip_volume_entries: u8,
    /// Whether the estimated command memory is limited too.
    pub strict_resource_limits: bool,
    /// Maximum estimated memory of the command vector (bytes).
    pub max_command_memory: usize,
    /// Maximum depth of nested parsing.
    pub max_parsing_depth: u32,
}

/// The memory that `count` commands are estimated to take: 100 bytes each.
pub open spec fn command_memory_estimate(count: int) -> int {
    count * 100
}

/// A `DataSizeExceedsLimit` error about `field`, with the given size and limit.
pub open spec fn is_size_error(e: VgmError, field: Seq<char>, size: int, limit: int) -> bool {
    e matches VgmError::DataSizeExceedsLimit { field: f, size: s, limit: l } && f@ == field && s
        == size && l == limit
}

/// The limits of the default configuration.
pub open spec fn default_limits() -> ParserConfig {
    ParserConfig {
        max_commands: 500_000,
        max_data_block_size: 4194304,
        max_total_data_block_memory: 33554432,
        max_metadata_size: 262144,
        max_chip_clock_entries: 32,
        max_chip_volume_entries: 32,
        strict_resource_limits: false,
        max_command_memory: 67108864,
        max_parsing_depth: 16,
    }
}

impl Default for ParserConfig {
    fn default() -> (c: Self)
        ensures
            c == default_limits(),
            c.max_commands == 500_000,
            c.max_data_block_size == 4194304,
            c.max_total_data_block_memory == 33554432,
            c.max_metadata_size == 262144,
            c.max_chip_clock_entries == 32,
            c.max_chip_volume_entries == 32,
            !c.strict_resource_limits,
            c.max_command_memory == 67108864,
            c.max_parsing_depth == 16,
    {
        ParserConfig {
            max_commands: 500_000,
            max_data_block_size: 4194304,
            max_total_data_block_memory: 33554432,
            max_metadata_size: 262144,
            max_chip_clock_entries: 32,
            max_chip_volume_entries: 32,
            strict_resource_limits: false,
            max_command_memory: 67108864,
            max_parsing_depth: 16,
        }
    }
}

impl ParserConfig {
    /// A configuration with strict limits.
    pub fn security_focused() -> (c: Self)
        ensures
            c.max_commands == 100_000,
            c.max_data_block_size == 1024 * 1024,
            c.max_total_data_block_memory == 8 * 1024 * 1024,
            c.max_metadata_size == 64 * 1024,
            c.max_chip_clock_entries == 16,
            c.max_chip_volume_entries == 16,
            c.strict_resource_limits,
            c.max_command_memory == 16 * 1024 * 1024,
            c.max_parsing_depth == 8,
    {
        ParserConfig {
            max_commands: 100_000,
            max_data_block_size: 1024 * 1024,
            max_total_data_block_memory: 8 * 1024 * 1024,
            max_metadata_size: 64 * 1024,
            max_chip_clock_entries: 16,
            max_chip_volume_entries: 16,
            strict_resource_limits: true,
            max_command_memory: 16 * 1024 * 1024,
            max_parsing_depth: 8,
        }
    }

    /// A configuration with generous limits, for large files.
    pub fn permissive() -> (c: Self)
        ensures
            c.max_commands == 2_000_000,
            c.max_data_block_size == 16 * 1024 * 1024,
            c.max_total_data_block_memory == 128 * 1024 * 1024,
            c.max_metadata_size == 1024 * 1024,
            c.max_chip_clock_entries == 64,
            c.max_chip_volume_entries == 64,
            !c.strict_resource_limits,
            c.max_command_memory == 256 * 1024 * 1024,
            c.max_parsing_depth == 32,
    {
        ParserConfig {
            max_commands: 2_000_000,
            max_data_block_size: 16 * 1024 * 1024,
            max_total_data_block_memory: 128 * 1024 * 1024,
            max_metadata_size: 1024 * 1024,
            max_chip_clock_entries: 64,
            max_chip_volume_entries: 64,
            strict_resource_limits: false,
            max_command_memory: 256 * 1024 * 1024,
            max_parsing_depth: 32,
        }
    }

    /// The estimated memory of `command_count` commands.
    pub fn estimate_command_memory(&self, command_count: usize) -> (m: usize)
        requires
            command_memory_estimate(command_count as int) <= usize::MAX,
        ensures
            m == command_memory_estimate(command_count as int),
    {
        command_count * 100
    }

    /// Checks a command count against `max_commands`.
    pub fn check_command_count(&self, count: usize) -> (r: VgmResult<()>)
        ensures
            r is Ok <==> count <= self.max_commands,
            r is Err ==> is_size_error(r->Err_0, "command_count"@, count as int, self.max_commands as int),
    {
        if count > self.max_commands {
            return Err(
                VgmError::DataSizeExceedsLimit {
                    field: String::from_str("command_count"),
                    size: count,
                    limit: self.max_commands,
                },
            );
        }
        Ok(())
    }

    /// Checks the estimated memory of `count` commands against `max_command_memory`.
    pub fn check_command_memory(&self, count: usize) -> (r: VgmResult<()>)
        requires
            command_memory_estimate(count as int) <= usize::MAX,
        ensures
            r is Ok <==> command_memory_estimate(count as int) <= self.max_command_memory,
            r is Err ==> is_size_error(
                r->Err_0,
                "command_memory"@,
                command_memory_estimate(count as int),
                self.max_command_memory as int,
            ),
    {
        let estimated_memory = self.estimate_command_memory(count);
        if estimated_memory > self.max_command_memory {
            return Err(
                VgmError::DataSizeExceedsLimit {
                    field: String::from_str("command_memory"),
                    size: estimated_memory,
                    limit: self.max_command_memory,
                },
            );
        }
        Ok(())
    }

    /// Checks the size of one data block against `max_data_block_size`.
    pub fn check_data_block_size(&self, size: u32) -> (r: VgmResult<()>)
        ensures
            r is Ok <==> size <= self.max_data_block_size,
            r is Err ==> is_size_error(
                r->Err_0,
                "data_block_size"@,
                size as int,
                self.max_data_block_size as int,
            ),
    {
        if size > self.max_data_block_size {
            return Err(
                VgmError::DataSizeExceedsLimit {
                    field: String::from_str("data_block_size"),
                    size: size as usize,
                    limit: self.max_data_block_size as usize,
                },
            );
        }
        Ok(())
    }

    /// Checks the size of the metadata section against `max_metadata_size`.
    pub fn check_metadata_size(&self, size: usize) -> (r: VgmResult<()>)
        ensures
            r is Ok <==> size <= self.max_metadata_size,
            r is Err ==> is_size_error(
                r->Err_0,
                "metadata_size"@,
                size as int,
                self.max_metadata_size as int,
            ),
    {
        if size > self.max_metadata_size {
            return Err(
                VgmError::DataSizeExceedsLimit {
                    field: String::from_str("metadata_size"),
                    size,
                    limit: self.max_metadata_size,
                },
            );
        }
        Ok(())
    }

    /// Checks the numbers of chip clock and chip volume entries; the clock
    /// entries are checked first.
    pub fn check_chip_entries(&self, clock_entries: u8, volume_entries: u8) -> (r: VgmResult<()>)
        ensures
            r is Ok <==> clock_entries <= self.max_chip_clock_entries && volume_entries
                <= self.max_chip_volume_entries,
            r is Err && clock_entries > self.max_chip_clock_entries ==> is_size_error(
                r->Err_0,
                "chip_clock_entries"@,
                clock_entries as int,
                self.max_chip_clock_entries as int,
            ),
            r is Err && clock_entries <= self.max_chip_clock_entries ==> is_size_error(
                r->Err_0,
                "chip_volume_entries"@,
                volume_entries as int,
                self.max_chip_volume_entries as int,
            ),
    {
        if clock_entries > self.max_chip_clock_entries {
            return Err(
                VgmError::DataSizeExceedsLimit {
                    field: String::from_str("chip_clock_entries"),
                    size: clock_entries as usize,
                    limit: self.max_chip_clock_entries as usize,
                },
            );
        }
        if volume_entries > self.max_chip_volume_entries {
            return Err(
                VgmError::DataSizeExceedsLimit {
                    field: String::from_str("chip_volume_entries"),
                    size: volume_entries as usize,
                    limit: self.max_chip_volume_entries as usize,
                },
            );
        }
        Ok(())
    }
}

/// The resources that a parse has used so far.
#[derive(Debug)]
pub struct ResourceTracker {
    /// Number of commands parsed.
    pub command_count: usize,
    /// Total size of the data blocks read (bytes).
    pub data_block_memory: usize,
    /// Current nesting depth of parsing.
    pub parsing_depth: u32,
    /// Number of data blocks read.
    pub data_block_count: usize,
}

/// Whether `track_command` can count one more command without overflow.
pub open spec fn can_track_command(t: ResourceTracker, config: ParserConfig) -> bool {
    &&& t.command_count < usize::MAX
    &&& config.strict_resource_limits ==> command_memory_estimate(t.command_count + 1) <= usize::MAX
}

/// Whether `track_command` accepts the next command.
pub open spec fn track_command_accepts(t: ResourceTracker, config: ParserConfig) -> bool {
    &&& t.command_count + 1 <= config.max_commands
    &&& config.strict_resource_limits ==> command_memory_estimate(t.command_count + 1)
        <= config.max_command_memory
}

/// Whether `track_data_block` can add a block of `size` bytes without overflow.
pub open spec fn can_track_data_block(t: ResourceTracker, config: ParserConfig, size: u32) -> bool {
    size <= config.max_data_block_size ==> t.data_block_memory + size <= usize::MAX
        && (t.data_block_memory + size <= config.max_total_data_block_memory
        ==> t.data_block_count < usize::MAX)
}

/// Whether `track_data_block` accepts a block of `size` bytes.
pub open spec fn track_data_block_accepts(t: ResourceTracker, config: ParserConfig, size: u32) -> bool {
    &&& size <= config.max_data_block_size
    &&& t.data_block_memory + size <= config.max_total_data_block_memory
}

/// The error that `track_data_block` gives when it refuses a block.
pub open spec fn track_data_block_error(
    t: ResourceTracker,
    config: ParserConfig,
    size: u32,
    e: VgmError,
) -> bool {
    if size > config.max_data_block_size {
        is_size_error(e, "data_block_size"@, size as int, config.max_data_block_size as int)
    } else {
        is_size_error(
            e,
            "total_data_block_memory"@,
            t.data_block_memory + size,
            config.max_total_data_block_memory as int,
        )
    }
}

/// The tracker after it has recorded a data block of `size` bytes.
pub open spec fn tracker_with_block(t: ResourceTracker, size: u32) -> ResourceTracker {
    ResourceTracker {
        data_block_memory: (t.data_block_memory + size) as usize,
        data_block_count: (t.data_block_count + 1) as usize,
        ..t
    }
}

/// A tracker with nothing used.
pub open spec fn fresh_tracker() -> ResourceTracker {
    ResourceTracker { command_count: 0, data_block_memory: 0, parsing_depth: 0, data_block_count: 0 }
}

/// The tracker after it has counted one more command.
pub open spec fn tracker_with_command(t: ResourceTracker) -> ResourceTracker {
    ResourceTracker { command_count: (t.command_count + 1) as usize, ..t }
}

/// The error that `track_command` gives when it refuses the next command.
pub open spec fn track_command_error(t: ResourceTracker, config: ParserConfig, e: VgmError) -> bool {
    if t.command_count + 1 > config.max_commands {
        is_size_error(e, "command_count"@, t.command_count + 1, config.max_commands as int)
    } else {
        is_size_error(
            e,
            "command_memory"@,
            command_memory_estimate(t.command_count + 1),
            config.max_command_memory as int,
        )
    }
}

impl Default for ResourceTracker {
    fn default() -> (t: Self)
        ensures
            t.command_count == 0,
            t.data_block_memory == 0,
            t.parsing_depth == 0,
            t.data_block_count == 0,
    {
        ResourceTracker { command_count: 0, data_block_memory: 0, parsing_depth: 0, data_block_count: 0 }
    }
}

/// The tracker one parsing level deeper.
pub open spec fn tracker_entered(t: ResourceTracker) -> ResourceTracker {
    ResourceTracker { parsing_depth: (t.parsing_depth + 1) as u32, ..t }
}

/// The tracker one parsing level up, never below zero.
pub open spec fn tracker_exited(t: ResourceTracker) -> ResourceTracker {
    ResourceTracker {
        parsing_depth: if t.parsing_depth > 0 {
            (t.parsing_depth - 1) as u32
        } else {
            0
        },
        ..t
    }
}

/// Entering a parsing level and leaving it again gives back the tracker.
pub proof fn lemma_enter_then_exit(t: ResourceTracker)
    requires
        t.parsing_depth < u32::MAX,
    ensures
        tracker_exited(tracker_entered(t)) == t,
{
}

impl ResourceTracker {
    /// A tracker with nothing used.
    pub fn new() -> (t: Self)
        ensures
            t.command_count == 0,
            t.data_block_memory == 0,
            t.parsing_depth == 0,
            t.data_block_count == 0,
    {
        Self::default()
    }

    /// Counts one more command, then checks the count and, under strict
    /// limits, the estimated command memory. The count goes up either way.
    pub fn track_command(&mut self, config: &ParserConfig) -> (r: VgmResult<()>)
        requires
            can_track_command(*old(self), *config),
        ensures
            *final(self) == (ResourceTracker { command_count: (old(self).command_count + 1) as usize, ..*old(self) }),
            r is Ok <==> track_command_accepts(*old(self), *config),
            r is Err && old(self).command_count + 1 > config.max_commands ==> is_size_error(
                r->Err_0,
                "command_count"@,
                old(self).command_count + 1,
                config.max_commands as int,
            ),
            r is Err && old(self).command_count + 1 <= config.max_commands ==> is_size_error(
                r->Err_0,
                "command_memory"@,
                command_memory_estimate(old(self).command_count + 1),
                config.max_command_memory as int,
            ),
    {
        self.command_count += 1;
        config.check_command_count(self.command_count)?;
        if config.strict_resource_limits {
            config.check_command_memory(self.command_count)?;
        }
        Ok(())
    }

    /// Records a data block of `size` bytes, after checking its size and the
    /// total against the limits; a refused block leaves the tracker unchanged.
    pub fn track_data_block(&mut self, config: &ParserConfig, size: u32) -> (r: VgmResult<()>)
        requires
            can_track_data_block(*old(self), *config, size),
        ensures
            r is Ok <==> track_data_block_accepts(*old(self), *config, size),
            r is Ok ==> *final(self) == tracker_with_block(*old(self), size),
            r is Err ==> *final(self) == *old(self) && track_data_block_error(
                *old(self),
                *config,
                size,
                r->Err_0,
            ),
    {
        config.check_data_block_size(size)?;
        let new_total = self.data_block_memory + size as usize;
        if new_total > config.max_total_data_block_memory {
            return Err(
                VgmError::DataSizeExceedsLimit {
                    field: String::from_str("total_data_block_memory"),
                    size: new_total,
                    limit: config.max_total_data_block_memory,
                },
            );
        }
        self.data_block_memory = new_total;
        self.data_block_count += 1;
        Ok(())
    }

    /// Goes one level deeper; refused beyond `max_parsing_depth`, though the
    /// depth goes up either way.
    pub fn enter_parsing_context(&mut self, config: &ParserConfig) -> (r: VgmResult<()>)
        requires
            old(self).parsing_depth < u32::MAX,
        ensures
            *final(self) == tracker_entered(*old(self)),
            r is Ok <==> old(self).parsing_depth + 1 <= config.max_parsing_depth,
            r is Err ==> r->Err_0 == (VgmError::ParseStackOverflow {
                position: 0,
                max_depth: config.max_parsing_depth as usize,
            }),
    {
        self.parsing_depth += 1;
        if self.parsing_depth > config.max_parsing_depth {
            return Err(
                VgmError::ParseStackOverflow {
                    position: 0,
                    max_depth: config.max_parsing_depth as usize,
                },
            );
        }
        Ok(())
    }

    /// Goes one level up; the depth never goes below zero.
    pub fn exit_parsing_context(&mut self)
        ensures
            *final(self) == tracker_exited(*old(self)),
    {
        if self.parsing_depth > 0 {
            self.parsing_depth -= 1;
        }
    }
}

/// Allocation with limits: vectors are reserved only within `max_command_memory`.
pub struct AllocationGuard<'a> {
    tracker: &'a mut ResourceTracker,
    config: &'a ParserConfig,
}

impl<'a> AllocationGuard<'a> {
    /// A guard over the given tracker and configuration.
    pub fn new(tracker: &'a mut ResourceTracker, config: &'a ParserConfig) -> (g: Self)
        ensures
            g.limits() == *config,
            g.tracker() == *old(tracker),
    {
        AllocationGuard { tracker, config }
    }

    /// An empty vector with room reserved for `size` items, when their size in
    /// bytes is within `max_command_memory` and the allocator grants the room.
    pub fn allocate_vec<T>(&mut self, size: usize, purpose: &str) -> (r: VgmResult<Vec<T>>)
        requires
            size * vstd::layout::size_of::<T>() <= usize::MAX,
        ensures
            final(self).limits() == old(self).limits(),
            final(self).tracker() == old(self).tracker(),
            r is Ok ==> r->Ok_0@.len() == 0 && size * vstd::layout::size_of::<T>()
                <= old(self).limits().max_command_memory,
            r is Err ==> (r->Err_0 matches VgmError::MemoryAllocationFailed { size: s, purpose: p }
                && s == size * vstd::layout::size_of::<T>() && p@ == purpose@),
            size * vstd::layout::size_of::<T>() > old(self).limits().max_command_memory ==> r is Err,
    {
        let byte_size = size * core::mem::size_of::<T>();
        if byte_size > self.config.max_command_memory {
            return Err(
                VgmError::MemoryAllocationFailed { size: byte_size, purpose: String::from_str(purpose) },
            );
        }
        let mut vec: Vec<T> = Vec::new();
        match vec.try_reserve(size) {
            Ok(()) => Ok(vec),
            Err(_) => Err(
                VgmError::MemoryAllocationFailed { size: byte_size, purpose: String::from_str(purpose) },
            ),
        }
    }

    /// Collects `items` into a vector reserved for `expected_size` of them:
    /// refused with a memory error where their size in bytes is over
    /// `max_command_memory` (or the allocator refuses the room), then with a
    /// size error where there are more items than `expected_size`.
    pub fn collect_with_limit<T: Clone>(&mut self, items: Vec<T>, expected_size: usize, purpose: &str) -> (r:
        VgmResult<Vec<T>>)
        requires
            expected_size * vstd::layout::size_of::<T>() <= usize::MAX,
        ensures
            final(self).limits() == old(self).limits(),
            final(self).tracker() == old(self).tracker(),
            expected_size * vstd::layout::size_of::<T>() > old(self).limits().max_command_memory ==> (
            r matches Err(VgmError::MemoryAllocationFailed { size: s, purpose: p }) && s == expected_size
                * vstd::layout::size_of::<T>() && p@ == purpose@),
            expected_size * vstd::layout::size_of::<T>() <= old(self).limits().max_command_memory ==> {
                ||| (r matches Err(VgmError::MemoryAllocationFailed { size: s, purpose: p }) && s == expected_size
                    * vstd::layout::size_of::<T>() && p@ == purpose@)
                ||| (items@.len() <= expected_size && r is Ok && r->Ok_0@ == items@)
                ||| (items@.len() > expected_size && r is Err && is_size_error(
                    r->Err_0,
                    purpose@,
                    expected_size + 1,
                    expected_size as int,
                ))
            },
    {
        let vec = self.allocate_vec::<T>(expected_size, purpose)?;
        fill_reserved(vec, items, expected_size, purpose)
    }

    /// The tracker that the guard watches over.
    pub closed spec fn tracker(&self) -> ResourceTracker {
        *self.tracker
    }

    /// The configuration that the guard applies.
    pub closed spec fn limits(&self) -> ParserConfig {
        *self.config
    }
}


/// Puts `items` after what `vec` holds, where there are at most
/// `expected_size` of them; one more is refused with a size error.
pub fn fill_reserved<T>(vec: Vec<T>, items: Vec<T>, expected_size: usize, purpose: &str) -> (r: VgmResult<Vec<T>>)
    ensures
        items@.len() <= expected_size ==> r is Ok && r->Ok_0@ == vec@ + items@,
        items@.len() > expected_size ==> r is Err && is_size_error(
            r->Err_0,
            purpose@,
            expected_size + 1,
            expected_size as int,
        ),
{
    let mut vec = vec;
    let mut items = items;
    if items.len() > expected_size {
        return Err(
            VgmError::DataSizeExceedsLimit {
                field: String::from_str(purpose),
                size: expected_size + 1,
                limit: expected_size,
            },
        );
    }
    vec.append(&mut items);
    Ok(vec)
}
} // verus!

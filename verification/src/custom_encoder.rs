//! A compact encoding of the commands that a tokenised stream keeps: YM2608
//! register writes, waits (all as a 16-bit sample count) and the end of data.

use crate::buffer::{
    buf_get_u16_le, buf_get_u8, bytes_mut_view, bytes_view, lemma_le16_roundtrip, out_put_u8, seq_le16, u16_le_bytes,
};
use crate::vgm_commands::Commands;
use bytes::{Bytes, BytesMut};
use vstd::prelude::*;

verus! {

/// A value that has a compact encoding.
pub trait CustomEncode {
    /// Whether the value has an encoding.
    spec fn encodable(&self) -> bool;

    /// Appends the encoding of the value to `buffer`.
    fn encode(&self, buffer: &mut BytesMut)
        requires
            self.encodable(),
    ;
}

/// A value that can be read back from its compact encoding.
pub trait CustomDecode: Sized {
    /// Whether `data` starts with an encoding.
    spec fn decodable(data: Seq<u8>) -> bool;

    /// Reads a value from the front of `data`, consuming its encoding.
    fn decode(data: &mut Bytes) -> Self
        requires
            Self::decodable(bytes_view(*old(data))),
    ;
}

/// The compact encoding of a command: `01 01 register value` and
/// `01 02 register value` for the two YM2608 ports, `02` and the wait in
/// samples (little-endian) for a wait, `03` for the end of data. Other
/// commands have none.
pub open spec fn custom_code(c: Commands) -> Seq<u8> {
    match c {
        Commands::Wait735Samples => seq![0x02u8] + u16_le_bytes(735),
        Commands::Wait882Samples => seq![0x02u8] + u16_le_bytes(882),
        Commands::WaitNSamples { n } => seq![0x02u8] + u16_le_bytes(n),
        Commands::WaitNSamplesPlus1 { n } => seq![0x02u8] + u16_le_bytes((n + 1) as u16),
        Commands::YM2608Port0Write { register, value, .. } => seq![0x01u8, 0x01u8, register, value],
        Commands::YM2608Port1Write { register, value, .. } => seq![0x01u8, 0x02u8, register, value],
        Commands::EndOfSoundData => seq![0x03u8],
        _ => Seq::empty(),
    }
}

/// Whether a command has a compact encoding (a wait of `n + 1` samples only
/// where `n + 1` fits in a byte).
pub open spec fn custom_encodable(c: Commands) -> bool {
    match c {
        Commands::Wait735Samples | Commands::Wait882Samples | Commands::WaitNSamples { .. }
        | Commands::YM2608Port0Write { .. } | Commands::YM2608Port1Write { .. } | Commands::EndOfSoundData => true,
        Commands::WaitNSamplesPlus1 { n } => n < 255,
        _ => false,
    }
}

/// Whether `s` starts with a compact encoding.
pub open spec fn custom_decodable(s: Seq<u8>) -> bool {
    &&& s.len() >= 1
    &&& s[0] == 0x01 ==> s.len() >= 4 && (s[1] == 0x01 || s[1] == 0x02)
    &&& s[0] == 0x02 ==> s.len() >= 3
    &&& (s[0] == 0x01 || s[0] == 0x02 || s[0] == 0x03)
}

/// The command that the encoding at the front of `s` stands for (YM2608
/// writes address the first chip), with the length of its encoding.
pub open spec fn custom_decoded(s: Seq<u8>) -> (Commands, nat) {
    if s[0] == 0x01 {
        if s[1] == 0x01 {
            (Commands::YM2608Port0Write { register: s[2], value: s[3], chip_index: 0 }, 4)
        } else {
            (Commands::YM2608Port1Write { register: s[2], value: s[3], chip_index: 0 }, 4)
        }
    } else if s[0] == 0x02 {
        (Commands::WaitNSamples { n: seq_le16(s, 1) }, 3)
    } else {
        (Commands::EndOfSoundData, 1)
    }
}

/// Appends a `u16` in little-endian order.
fn put_u16_le(buffer: &mut BytesMut, v: u16)
    ensures
        bytes_mut_view(*final(buffer)) == bytes_mut_view(*old(buffer)) + u16_le_bytes(v),
{
    out_put_u8(buffer, (v & 0xff) as u8);
    out_put_u8(buffer, ((v >> 8u16) & 0xff) as u8);
    assert(bytes_mut_view(*buffer) =~= bytes_mut_view(*old(buffer)) + u16_le_bytes(v));
}

impl CustomEncode for Commands {
    open spec fn encodable(&self) -> bool {
        custom_encodable(*self)
    }

    fn encode(&self, buffer: &mut BytesMut)
        ensures
            bytes_mut_view(*final(buffer)) == bytes_mut_view(*old(buffer)) + custom_code(*self),
    {
        let ghost start = bytes_mut_view(*buffer);
        match self {
            Commands::Wait735Samples => {
                out_put_u8(buffer, 0x02);
                put_u16_le(buffer, 735);
            },
            Commands::Wait882Samples => {
                out_put_u8(buffer, 0x02);
                put_u16_le(buffer, 882);
            },
            Commands::WaitNSamples { n } => {
                out_put_u8(buffer, 0x02);
                put_u16_le(buffer, *n);
            },
            Commands::WaitNSamplesPlus1 { n } => {
                out_put_u8(buffer, 0x02);
                put_u16_le(buffer, (*n + 1) as u16);
            },
            Commands::YM2608Port0Write { register, value, .. } => {
                out_put_u8(buffer, 0x01);
                out_put_u8(buffer, 0x01);
                out_put_u8(buffer, *register);
                out_put_u8(buffer, *value);
            },
            Commands::YM2608Port1Write { register, value, .. } => {
                out_put_u8(buffer, 0x01);
                out_put_u8(buffer, 0x02);
                out_put_u8(buffer, *register);
                out_put_u8(buffer, *value);
            },
            _ => {
                out_put_u8(buffer, 0x03);
            },
        }
        assert(bytes_mut_view(*buffer) =~= start + custom_code(*self));
    }
}

impl CustomDecode for Commands {
    open spec fn decodable(data: Seq<u8>) -> bool {
        custom_decodable(data)
    }

    fn decode(data: &mut Bytes) -> (c: Self)
        ensures
            c == custom_decoded(bytes_view(*old(data))).0,
            bytes_view(*final(data)) == bytes_view(*old(data)).skip(custom_decoded(bytes_view(*old(data))).1 as int),
    {
        let ghost s = bytes_view(*data);
        let instruction = buf_get_u8(data);
        if instruction == 0x01 {
            let port = buf_get_u8(data);
            let register = buf_get_u8(data);
            let value = buf_get_u8(data);
            assert(bytes_view(*data) =~= s.skip(4));
            if port == 0x01 {
                Commands::YM2608Port0Write { register, value, chip_index: 0 }
            } else {
                Commands::YM2608Port1Write { register, value, chip_index: 0 }
            }
        } else if instruction == 0x02 {
            let n = buf_get_u16_le(data);
            assert(bytes_view(*data) =~= s.skip(3));
            Commands::WaitNSamples { n }
        } else {
            Commands::EndOfSoundData
        }
    }
}

/// The command that decoding gives back for an encodable command: the same
/// YM2608 write (on the first chip) or end of data, and any wait as the
/// equal `WaitNSamples`.
pub open spec fn custom_normal(c: Commands) -> Commands {
    match c {
        Commands::Wait735Samples => Commands::WaitNSamples { n: 735 },
        Commands::Wait882Samples => Commands::WaitNSamples { n: 882 },
        Commands::WaitNSamplesPlus1 { n } => Commands::WaitNSamples { n: (n + 1) as u16 },
        Commands::YM2608Port0Write { register, value, .. } => Commands::YM2608Port0Write {
            register,
            value,
            chip_index: 0,
        },
        Commands::YM2608Port1Write { register, value, .. } => Commands::YM2608Port1Write {
            register,
            value,
            chip_index: 0,
        },
        _ => c,
    }
}

/// Decoding the encoding of a command gives the command back, with waits
/// as sample counts and YM2608 writes on the first chip, and consumes
/// exactly the encoding.
pub proof fn lemma_custom_round_trip(c: Commands, rest: Seq<u8>)
    requires
        custom_encodable(c),
    ensures
        custom_decodable(custom_code(c) + rest),
        custom_decoded(custom_code(c) + rest) == (custom_normal(c), custom_code(c).len()),
{
    let s = custom_code(c) + rest;
    match c {
        Commands::Wait735Samples => {
            lemma_le16_roundtrip(735);
        },
        Commands::Wait882Samples => {
            lemma_le16_roundtrip(882);
        },
        Commands::WaitNSamples { n } => {
            lemma_le16_roundtrip(n);
        },
        Commands::WaitNSamplesPlus1 { n } => {
            lemma_le16_roundtrip((n + 1) as u16);
        },
        _ => {},
    }
    assert(s[0] == custom_code(c)[0]);
}


/// Whether a command has a compact encoding.
pub fn is_custom_encodable(c: &Commands) -> (b: bool)
    ensures
        b == custom_encodable(*c),
{
    match c {
        Commands::Wait735Samples | Commands::Wait882Samples | Commands::WaitNSamples { .. }
        | Commands::YM2608Port0Write { .. } | Commands::YM2608Port1Write { .. } | Commands::EndOfSoundData => true,
        Commands::WaitNSamplesPlus1 { n } => *n < 255,
        _ => false,
    }
}

/// How many commands of `cs` write the YM2608 register `r` (on either port).
pub open spec fn ym2608_register_writes(cs: Seq<Commands>, r: u8) -> nat
    decreases cs.len(),
{
    if cs.len() == 0 {
        0
    } else {
        ym2608_register_writes(cs.drop_last(), r) + match cs.last() {
            Commands::YM2608Port0Write { register, .. } => if register == r { 1nat } else { 0nat },
            Commands::YM2608Port1Write { register, .. } => if register == r { 1nat } else { 0nat },
            _ => 0nat,
        }
    }
}

/// For each YM2608 register (the index), how many commands write it.
pub fn ym2608_register_counts(commands: &Vec<Commands>) -> (counts: Vec<u32>)
    requires
        commands@.len() <= u32::MAX,
    ensures
        counts@.len() == 256,
        forall|r: int| 0 <= r < 256 ==> #[trigger] counts@[r] == ym2608_register_writes(commands@, r as u8),
{
    let mut counts: Vec<u32> = Vec::new();
    let mut k: usize = 0;
    while k < 256
        invariant
            k <= 256,
            counts@.len() == k,
            forall|r: int| 0 <= r < k ==> #[trigger] counts@[r] == 0,
        decreases 256 - k,
    {
        counts.push(0);
        k += 1;
    }
    let mut i: usize = 0;
    while i < commands.len()
        invariant
            i <= commands@.len(),
            commands@.len() <= u32::MAX,
            counts@.len() == 256,
            forall|r: int|
                0 <= r < 256 ==> #[trigger] counts@[r] == ym2608_register_writes(commands@.take(i as int), r as u8),
            forall|r: int| 0 <= r < 256 ==> #[trigger] counts@[r] <= i,
        decreases commands@.len() - i,
    {
        let ghost before = counts@;
        proof {
            assert(commands@.take(i as int + 1).drop_last() =~= commands@.take(i as int));
        }
        match &commands[i] {
            Commands::YM2608Port0Write { register, .. } | Commands::YM2608Port1Write { register, .. } => {
                let r = *register as usize;
                let n = counts[r];
                counts.set(r, n + 1);
            },
            _ => {},
        }
        i += 1;
        proof {
            assert forall|r: int| 0 <= r < 256 implies #[trigger] counts@[r] == ym2608_register_writes(
                commands@.take(i as int),
                r as u8,
            ) by {
                assert((r as u8) as int == r);
            }
        }
    }
    assert(commands@.take(i as int) =~= commands@);
    counts
}
} // verus!

use bytes::{Buf, BufMut, Bytes, BytesMut};
use vgm_parser::errors::VgmError;
use vgm_parser::header::{ChipClockEntry, ChipVolumeEntry, ExtraHeaderData, HeaderData};
use vgm_parser::parser_config::{ParserConfig, ResourceTracker};
use vgm_parser::validation::{ValidationConfig, ValidationContext};

/// Helper to create valid VGM header bytes
fn create_test_header_bytes() -> Vec<u8> {
    let mut buffer = BytesMut::new();
    
    // VGM magic + basic header structure
    buffer.extend_from_slice(b"Vgm ");           // 0x00: Magic
    buffer.extend_from_slice(&100u32.to_le_bytes());   // 0x04: EOF offset
    // Version 1.51 in BCD format: we want 151 decimal, so need to use decimal_to_bcd
    let version_bcd = vgm_parser::utils::decimal_to_bcd(151);
    // Pad to 4 bytes and reverse for big-endian
    let mut version_bytes = vec![0u8; 4];
    for (i, &byte) in version_bcd.iter().rev().enumerate() {
        if i < 4 {
            version_bytes[3 - i] = byte;
        }
    }
    buffer.extend_from_slice(&version_bytes); // 0x08: Version 1.51 (BCD)
    buffer.extend_from_slice(&3579545u32.to_le_bytes());     // 0x0C: SN76489 clock
    
    // 0x10
    buffer.extend_from_slice(&0u32.to_le_bytes());      // 0x10: YM2413 clock
    buffer.extend_from_slice(&0u32.to_le_bytes());      // 0x14: GD3 offset
    buffer.extend_from_slice(&44100u32.to_le_bytes());  // 0x18: Total samples
    buffer.extend_from_slice(&0u32.to_le_bytes());      // 0x1C: Loop offset
    
    // 0x20
    buffer.extend_from_slice(&0u32.to_le_bytes());      // 0x20: Loop samples
    buffer.extend_from_slice(&44100u32.to_le_bytes()); // 0x24: Rate
    buffer.extend_from_slice(&0x0009u16.to_le_bytes()); // 0x28: SN76489 feedback
    buffer.extend_from_slice(&[16u8]);                  // 0x2A: SN76489 shift register width
    buffer.extend_from_slice(&[0u8]);                   // 0x2B: SN76489 flags
    buffer.extend_from_slice(&7670453u32.to_le_bytes()); // 0x2C: YM2612 clock
    
    // 0x30
    buffer.extend_from_slice(&0u32.to_le_bytes());      // 0x30: YM2151 clock
    buffer.extend_from_slice(&0x40u32.to_le_bytes());   // 0x34: VGM data offset
    buffer.extend_from_slice(&0u32.to_le_bytes());      // 0x38: Sega PCM clock
    buffer.extend_from_slice(&0u32.to_le_bytes());      // 0x3C: SPCM interface

    // Continue with more header fields to make it complete (VGM 1.51 needs 256 bytes minimum)
    // Add all remaining fields with zero padding
    while buffer.len() < 256 {
        buffer.extend_from_slice(&[0u8; 4]);
    }
    
    buffer.to_vec()
}

#[test]
fn test_header_data_default() {
    let header = HeaderData::default();
    
    // Test default values
    assert_eq!(header.version, 0);
    assert_eq!(header.sn76489_clock, 0);
    assert_eq!(header.ym2612_clock, 0);
    assert_eq!(header.total_nb_samples, 0);
    assert_eq!(header.rate, 0);
    assert_eq!(header.vgm_data_offset, 0);
}

#[test]
fn test_chip_clock_entry() {
    let entry = ChipClockEntry {
        chip_id: 0x02,
        clock: 3579545,
    };
    
    assert_eq!(entry.chip_id, 0x02);
    assert_eq!(entry.clock, 3579545);
}

#[test]
fn test_chip_volume_entry() {
    let entry = ChipVolumeEntry {
        chip_id: 0x02,
        flags: 0x01,
        volume: 0x8000,
    };
    
    assert_eq!(entry.chip_id, 0x02);
    assert_eq!(entry.flags, 0x01);
    assert_eq!(entry.volume, 0x8000);
}

#[test]
fn test_extra_header_data() {
    let extra_header = ExtraHeaderData {
        header_size: 0x40,
        chip_clock_offset: 0x00,
        chip_vol_offset: 0x00,
        chip_clock_entries: vec![],
        chip_volume_entries: vec![],
    };
    
    assert_eq!(extra_header.header_size, 0x40);
    assert!(extra_header.chip_clock_entries.is_empty());
    assert!(extra_header.chip_volume_entries.is_empty());
}

#[test]
fn test_header_from_bytes() {
    let test_data = create_test_header_bytes();
    let mut bytes = Bytes::from(test_data);
    
    let header = HeaderData::from_bytes(&mut bytes).unwrap();
    
    assert_eq!(header.version, 151); // Version 1.51 in decimal
    assert_eq!(header.sn76489_clock, 3579545);
    assert_eq!(header.ym2612_clock, 7670453);
    assert_eq!(header.total_nb_samples, 44100);
    assert_eq!(header.rate, 44100);
    assert_eq!(header.vgm_data_offset, 0x40);
    assert_eq!(header.sn76489_feedback, 0x0009);
    assert_eq!(header.sn76489_shift_register_width, 16);
}

#[test]
fn test_header_from_bytes_with_config() {
    let test_data = create_test_header_bytes();
    let mut bytes = Bytes::from(test_data);
    let config = ParserConfig::default();
    let mut tracker = ResourceTracker::new();
    
    let header = HeaderData::from_bytes_with_config(&mut bytes, &config, &mut tracker).unwrap();
    
    assert_eq!(header.version, 151);
    assert_eq!(header.sn76489_clock, 3579545);
    assert_eq!(header.ym2612_clock, 7670453);
}

#[test]
fn test_header_to_bytes() {
    let header = HeaderData {
        version: 151,
        sn76489_clock: 3579545,
        ym2612_clock: 7670453,
        total_nb_samples: 44100,
        rate: 44100,
        vgm_data_offset: 0x40,
        sn76489_feedback: 0x0009,
        sn76489_shift_register_width: 16,
        ..Default::default()
    };
    
    let mut buffer = BytesMut::new();
    header.to_bytes(&mut buffer).unwrap();
    
    // Check magic bytes
    assert_eq!(&buffer[0..4], b"Vgm ");
    
    // Check some key fields - version is stored as BCD in little-endian format
    let version_bytes = &buffer[8..12];
    // decimal_to_bcd(151) returns [0x51, 0x01, 0x00, 0x00] which is stored as little-endian
    // So in the buffer it should be [0x51, 0x01, 0x00, 0x00]
    assert_eq!(version_bytes, &[0x51, 0x01, 0x00, 0x00]);
}

#[test]
fn test_header_round_trip() {
    let original = HeaderData {
        version: 150,
        sn76489_clock: 3579545,
        ym2612_clock: 7670453,
        ym2151_clock: 3579545,
        total_nb_samples: 88200,
        rate: 44100,
        vgm_data_offset: 0x40,
        gd3_offset: 0x100,
        loop_offset: 0x80,
        loop_nb_samples: 44100,
        sn76489_feedback: 0x0009,
        sn76489_shift_register_width: 16,
        volume_modifier: 32,
        ..Default::default()
    };
    
    // Serialize
    let mut buffer = BytesMut::new();
    original.to_bytes(&mut buffer).unwrap();
    
    // Parse back
    let mut bytes = Bytes::from(buffer.to_vec());
    let parsed = HeaderData::from_bytes(&mut bytes).unwrap();
    
    // Compare key fields
    assert_eq!(original.version, parsed.version);
    assert_eq!(original.sn76489_clock, parsed.sn76489_clock);
    assert_eq!(original.ym2612_clock, parsed.ym2612_clock);
    assert_eq!(original.ym2151_clock, parsed.ym2151_clock);
    assert_eq!(original.total_nb_samples, parsed.total_nb_samples);
    assert_eq!(original.rate, parsed.rate);
    assert_eq!(original.vgm_data_offset, parsed.vgm_data_offset);
    assert_eq!(original.sn76489_feedback, parsed.sn76489_feedback);
    assert_eq!(original.sn76489_shift_register_width, parsed.sn76489_shift_register_width);
}

#[test]
fn test_header_invalid_magic() {
    let mut test_data = create_test_header_bytes();
    
    // Corrupt magic bytes
    test_data[0] = b'X';
    test_data[1] = b'g';
    test_data[2] = b'm';
    test_data[3] = b' ';
    
    let mut bytes = Bytes::from(test_data);
    let result = HeaderData::from_bytes(&mut bytes);
    
    assert!(result.is_err());
    assert!(matches!(result.unwrap_err(), VgmError::InvalidMagicBytes { .. }));
}

#[test]
fn test_header_truncated_data() {
    let test_data = vec![b'V', b'g', b'm', b' ']; // Only magic, missing everything else
    let mut bytes = Bytes::from(test_data);
    
    // This should return an error due to insufficient data
    let result = HeaderData::from_bytes(&mut bytes);
    assert!(result.is_err(), "Expected error for truncated header data");
}

#[test]
fn test_header_validation() {
    let header = HeaderData {
        version: 150,
        sn76489_clock: 3579545,
        ym2612_clock: 7670453,
        total_nb_samples: 44100,
        rate: 44100,
        vgm_data_offset: 0x40,
        gd3_offset: 0x100,
        ..Default::default()
    };
    
    let context = ValidationContext {
        file_size: 1000,
        config: ValidationConfig::default(),
    };
    
    let result = header.validate(&context);
    assert!(result.is_ok());
}

#[test]
fn test_header_validation_invalid_offset() {
    let header = HeaderData {
        version: 150,
        sn76489_clock: 3579545,
        gd3_offset: 2000, // Beyond file size
        ..Default::default()
    };
    
    let context = ValidationContext {
        file_size: 1000, // File too small for offset
        config: ValidationConfig::default(),
    };
    
    let result = header.validate(&context);
    assert!(result.is_err());
}

#[test]
fn test_header_chip_configurations() {
    // Test various chip clock configurations
    let header = HeaderData {
        version: 151,
        sn76489_clock: 3579545,     // Standard NTSC PSG
        ym2612_clock: 7670453,      // Standard NTSC YM2612
        ym2151_clock: 3579545,      // YM2151
        ym2413_clock: 3579545,      // YM2413
        ay8910_clock: 1789773,      // AY-3-8910
        nes_apu_clock: 1789773,     // NES APU
        gb_dmg_clock: 4194304,      // Game Boy DMG
        ..Default::default()
    };
    
    // Test round-trip with multiple chips
    let mut buffer = BytesMut::new();
    header.to_bytes(&mut buffer).unwrap();
    
    let mut bytes = Bytes::from(buffer.to_vec());
    let parsed = HeaderData::from_bytes(&mut bytes).unwrap();
    
    assert_eq!(parsed.sn76489_clock, 3579545);
    assert_eq!(parsed.ym2612_clock, 7670453);
    assert_eq!(parsed.ym2151_clock, 3579545);
    assert_eq!(parsed.ym2413_clock, 3579545);
    assert_eq!(parsed.ay8910_clock, 1789773);
    assert_eq!(parsed.nes_apu_clock, 1789773);
    assert_eq!(parsed.gb_dmg_clock, 4194304);
}

#[test]
fn test_header_loop_configuration() {
    let header = HeaderData {
        version: 150,
        sn76489_clock: 3579545,
        total_nb_samples: 176400,  // 4 seconds at 44.1kHz
        loop_offset: 0x80,
        loop_nb_samples: 88200,    // 2 second loop
        rate: 44100,
        ..Default::default()
    };
    
    // Test round-trip
    let mut buffer = BytesMut::new();
    header.to_bytes(&mut buffer).unwrap();
    
    let mut bytes = Bytes::from(buffer.to_vec());
    let parsed = HeaderData::from_bytes(&mut bytes).unwrap();
    
    assert_eq!(parsed.total_nb_samples, 176400);
    assert_eq!(parsed.loop_offset, 0x80);
    assert_eq!(parsed.loop_nb_samples, 88200);
    assert_eq!(parsed.rate, 44100);
}

#[test]
fn test_header_edge_cases_coverage() {
    // Test edge cases for improved coverage of header parsing
    
    // Test with minimal valid header (VGM 1.00)
    let mut header = HeaderData::default();
    header.version = 100; // VGM 1.00
    header.end_of_file_offset = 0x40; // Minimal size
    header.sn76489_clock = 3579545; // Standard PSG clock
    
    let mut buffer = BytesMut::new();
    header.to_bytes(&mut buffer).unwrap();
    let mut bytes = Bytes::from(buffer);
    let parsed = HeaderData::from_bytes(&mut bytes).unwrap();
    assert_eq!(parsed.version, 100);
    
    // Test with maximum valid offsets
    let mut header = HeaderData::default();
    header.version = 171; // VGM 1.71
    header.gd3_offset = 0x100000;
    header.loop_offset = 0x100000;
    header.vgm_data_offset = 0x34;
    
    let mut buffer = BytesMut::new();
    header.to_bytes(&mut buffer).unwrap();
    let mut bytes = Bytes::from(buffer);
    let parsed = HeaderData::from_bytes(&mut bytes).unwrap();
    assert_eq!(parsed.gd3_offset, 0x100000);
    assert_eq!(parsed.loop_offset, 0x100000);
    
    // Test various chip clock combinations
    let mut header = HeaderData::default();
    header.version = 150;
    header.ym2612_clock = 7670453;
    header.ym2151_clock = 3579545;
    header.sn76489_clock = 3579545;
    header.ym2413_clock = 3579545;
    
    let mut buffer = BytesMut::new();
    header.to_bytes(&mut buffer).unwrap();
    let mut bytes = Bytes::from(buffer);
    let parsed = HeaderData::from_bytes(&mut bytes).unwrap();
    assert_eq!(parsed.ym2612_clock, 7670453);
    assert_eq!(parsed.ym2151_clock, 3579545);
    
    // Test dual chip configurations
    let mut header = HeaderData::default();
    header.version = 161;
    header.ym2612_clock = 7670453 | 0x40000000; // Dual chip flag
    header.sn76489_clock = 3579545 | 0x40000000; // Dual chip flag
    
    let mut buffer = BytesMut::new();
    header.to_bytes(&mut buffer).unwrap();
    let mut bytes = Bytes::from(buffer);
    let parsed = HeaderData::from_bytes(&mut bytes).unwrap();
    assert!((parsed.ym2612_clock & 0x40000000) != 0);
    assert!((parsed.sn76489_clock & 0x40000000) != 0);
}

#[test]
fn test_header_serialization_edge_cases() {
    // Test serialization of various header configurations
    
    // Test all chip types with non-zero clocks
    let mut header = HeaderData::default();
    header.version = 170;
    header.sn76489_clock = 3579545;
    header.ym2413_clock = 3579545;
    header.ym2612_clock = 7670453;
    header.ym2151_clock = 3579545;
    header.ym2203_clock = 3579545;
    header.ym2608_clock = 7987200;
    header.ym2610_b_clock = 8000000;
    header.ym3812_clock = 3579545;
    header.ym3526_clock = 3579545;
    header.y8950_clock = 3579545;
    header.ymf262_clock = 14318180;
    header.ymf278_b_clock = 33868800;
    header.ymf271_clock = 16934400;
    header.ymz280_b_clock = 16934400;
    header.rf5_c68_clock = 12500000;
    header.rf5_c164_clock = 7159090;
    header.pwm_clock = 23011361;
    header.ay8910_clock = 1789772;
    header.gb_dmg_clock = 4194304;
    header.nes_apu_clock = 1789772;
    header.multi_pcm_clock = 8053975;
    header.u_pd7759_clock = 640000;
    header.okim6258_clock = 4000000;
    header.okim6295_clock = 1056000;
    
    let mut buffer = BytesMut::new();
    header.to_bytes(&mut buffer).unwrap();
    let mut bytes = Bytes::from(buffer);
    let parsed = HeaderData::from_bytes(&mut bytes).unwrap();
    
    assert_eq!(parsed.sn76489_clock, 3579545);
    assert_eq!(parsed.ym2413_clock, 3579545);
    assert_eq!(parsed.ym2612_clock, 7670453);
    assert_eq!(parsed.ym2151_clock, 3579545);
    assert_eq!(parsed.ym2203_clock, 3579545);
    assert_eq!(parsed.ym2608_clock, 7987200);
    assert_eq!(parsed.ym2610_b_clock, 8000000);
    assert_eq!(parsed.ym3812_clock, 3579545);
    assert_eq!(parsed.ym3526_clock, 3579545);
    assert_eq!(parsed.y8950_clock, 3579545);
    assert_eq!(parsed.ymf262_clock, 14318180);
    assert_eq!(parsed.ymf278_b_clock, 33868800);
    assert_eq!(parsed.ymf271_clock, 16934400);
    assert_eq!(parsed.ymz280_b_clock, 16934400);
    assert_eq!(parsed.rf5_c68_clock, 12500000);
    assert_eq!(parsed.rf5_c164_clock, 7159090);
    assert_eq!(parsed.pwm_clock, 23011361);
    assert_eq!(parsed.ay8910_clock, 1789772);
    assert_eq!(parsed.gb_dmg_clock, 4194304);
    assert_eq!(parsed.nes_apu_clock, 1789772);
    assert_eq!(parsed.multi_pcm_clock, 8053975);
    assert_eq!(parsed.u_pd7759_clock, 640000);
    assert_eq!(parsed.okim6258_clock, 4000000);
    assert_eq!(parsed.okim6295_clock, 1056000);
}

#[test]
fn test_header_early_return_scenarios() {
    // Test different VGM data offset scenarios to hit early return branches
    
    // Test header ending at 0x40 (basic VGM 1.00)
    let mut test_data = create_test_header_bytes();
    // Set vgm_data_offset to point right after basic header
    test_data[0x34..0x38].copy_from_slice(&0x0Cu32.to_le_bytes()); // 0x40 - 0x34 = 0x0C
    
    let mut bytes = Bytes::from(test_data);
    let header = HeaderData::from_bytes(&mut bytes).unwrap();
    assert_eq!(header.vgm_data_offset, 0x0C);
    assert_eq!(header.rf5_c68_clock, 0); // Should not be parsed due to early return
    
    // Test header ending at 0x50 (includes rf5_c68_clock)
    let mut test_data = create_test_header_bytes();
    test_data[0x34..0x38].copy_from_slice(&0x1Cu32.to_le_bytes()); // 0x50 - 0x34 = 0x1C
    test_data[0x40..0x44].copy_from_slice(&123456u32.to_le_bytes()); // Set rf5_c68_clock
    
    let mut bytes = Bytes::from(test_data);
    let header = HeaderData::from_bytes(&mut bytes).unwrap();
    assert_eq!(header.vgm_data_offset, 0x1C);
    assert_eq!(header.rf5_c68_clock, 123456);
    assert_eq!(header.ym2203_clock, 0); // Should not be parsed
    
    // Test header ending at 0x80 (includes more fields)
    let mut test_data = create_test_header_bytes();
    test_data[0x34..0x38].copy_from_slice(&0x4Cu32.to_le_bytes()); // 0x80 - 0x34 = 0x4C
    test_data[0x70..0x74].copy_from_slice(&789012u32.to_le_bytes()); // Set pwm_clock
    
    let mut bytes = Bytes::from(test_data);
    let header = HeaderData::from_bytes(&mut bytes).unwrap();
    assert_eq!(header.vgm_data_offset, 0x4C);
    assert_eq!(header.pwm_clock, 789012);
    assert_eq!(header.gb_dmg_clock, 0); // Should not be parsed
}

#[test]
fn test_header_extra_header_parsing() {
    // Test header with extra header offset
    let mut test_data = create_test_header_bytes();
    
    // Set vgm_data_offset to a large value so parsing continues past 0xBC
    test_data[0x34..0x38].copy_from_slice(&0x100u32.to_le_bytes()); // Set vgm_data_offset to 0x100
    // Set extra_header_offset to point to a location
    test_data[0xBC..0xC0].copy_from_slice(&0x10u32.to_le_bytes()); // Extra header at 0xBC + 0x10 = 0xCC
    
    // Create extra header data at the expected position
    let extra_header_start = 0xCC;
    while test_data.len() < extra_header_start + 16 {
        test_data.push(0);
    }
    
    // Write extra header structure
    test_data[extra_header_start..extra_header_start+4].copy_from_slice(&0x10u32.to_le_bytes()); // header_size
    test_data[extra_header_start+4..extra_header_start+8].copy_from_slice(&0x10u32.to_le_bytes()); // chip_clock_offset
    test_data[extra_header_start+8..extra_header_start+12].copy_from_slice(&0x00u32.to_le_bytes()); // chip_vol_offset
    
    let mut bytes = Bytes::from(test_data);
    let header = HeaderData::from_bytes(&mut bytes).unwrap();
    
    assert_eq!(header.extra_header_offset, 0x10);
    assert_eq!(header.extra_header.header_size, 0x10);
}

#[test]
fn test_header_integer_overflow_protection() {
    // Test vgm_data_offset overflow protection
    let mut test_data = create_test_header_bytes();
    // Set vgm_data_offset to a value that would overflow when adding 0x34
    test_data[0x34..0x38].copy_from_slice(&0xFFFFFFFFu32.to_le_bytes());
    
    let mut bytes = Bytes::from(test_data);
    let result = HeaderData::from_bytes(&mut bytes);
    
    assert!(result.is_err());
    assert!(matches!(result.unwrap_err(), VgmError::IntegerOverflow { .. }));
    
    // Test extra_header_offset overflow protection  
    let mut test_data = create_test_header_bytes();
    // Set vgm_data_offset to a large value so parsing continues past 0xBC
    test_data[0x34..0x38].copy_from_slice(&0x100u32.to_le_bytes()); // Set vgm_data_offset to 0x100
    test_data[0xBC..0xC0].copy_from_slice(&0xFFFFFFFFu32.to_le_bytes()); // Extra header offset overflow
    
    let mut bytes = Bytes::from(test_data);
    let result = HeaderData::from_bytes(&mut bytes);
    
    assert!(result.is_err());
    assert!(matches!(result.unwrap_err(), VgmError::IntegerOverflow { .. }));
}

#[test]
fn test_header_all_chip_clocks_parsing() {
    // Test a header that includes all possible chip clocks to exercise all parsing paths
    let mut test_data = create_test_header_bytes();
    
    // Set vgm_data_offset to allow parsing all fields
    test_data[0x34..0x38].copy_from_slice(&0xB0u32.to_le_bytes()); // Point to 0xE4
    
    // Ensure we have enough data
    while test_data.len() < 0xE8 {
        test_data.push(0);
    }
    
    // Set various chip clocks with recognizable values
    test_data[0x40..0x44].copy_from_slice(&1000000u32.to_le_bytes()); // rf5_c68_clock
    test_data[0x44..0x48].copy_from_slice(&2000000u32.to_le_bytes()); // ym2203_clock  
    test_data[0x48..0x4C].copy_from_slice(&3000000u32.to_le_bytes()); // ym2608_clock
    test_data[0x4C..0x50].copy_from_slice(&4000000u32.to_le_bytes()); // ym2610_b_clock
    
    test_data[0x50..0x54].copy_from_slice(&5000000u32.to_le_bytes()); // ym3812_clock
    test_data[0x54..0x58].copy_from_slice(&6000000u32.to_le_bytes()); // ym3526_clock
    test_data[0x58..0x5C].copy_from_slice(&7000000u32.to_le_bytes()); // y8950_clock
    test_data[0x5C..0x60].copy_from_slice(&8000000u32.to_le_bytes()); // ymf262_clock
    
    test_data[0x60..0x64].copy_from_slice(&9000000u32.to_le_bytes()); // ymf278_b_clock
    test_data[0x64..0x68].copy_from_slice(&10000000u32.to_le_bytes()); // ymf271_clock
    test_data[0x68..0x6C].copy_from_slice(&11000000u32.to_le_bytes()); // ymz280_b_clock
    test_data[0x6C..0x70].copy_from_slice(&12000000u32.to_le_bytes()); // rf5_c164_clock
    
    test_data[0x70..0x74].copy_from_slice(&13000000u32.to_le_bytes()); // pwm_clock
    test_data[0x74..0x78].copy_from_slice(&14000000u32.to_le_bytes()); // ay8910_clock
    test_data[0x78] = 0x01; // ay8910_chip_type
    test_data[0x79] = 0x02; // ay8910_flags
    test_data[0x7A] = 0x03; // ym2203_ay8910_flags
    test_data[0x7B] = 0x04; // ym2608_ay8910_flags
    test_data[0x7C] = 32; // volume_modifier
    test_data[0x7E] = 0x05; // loop_base
    test_data[0x7F] = 0x06; // loop_modifier
    
    test_data[0x80..0x84].copy_from_slice(&15000000u32.to_le_bytes()); // gb_dmg_clock
    test_data[0x84..0x88].copy_from_slice(&16000000u32.to_le_bytes()); // nes_apu_clock
    test_data[0x88..0x8C].copy_from_slice(&17000000u32.to_le_bytes()); // multi_pcm_clock
    test_data[0x8C..0x90].copy_from_slice(&18000000u32.to_le_bytes()); // u_pd7759_clock
    
    test_data[0x90..0x94].copy_from_slice(&19000000u32.to_le_bytes()); // okim6258_clock
    test_data[0x94] = 0x07; // okim6258_flags
    test_data[0x95] = 0x08; // k054539_flags
    test_data[0x96] = 0x09; // c140_chip_type
    test_data[0x98..0x9C].copy_from_slice(&20000000u32.to_le_bytes()); // okim6295_clock
    test_data[0x9C..0xA0].copy_from_slice(&21000000u32.to_le_bytes()); // k051649_k052539_clock
    
    test_data[0xA0..0xA4].copy_from_slice(&22000000u32.to_le_bytes()); // k054539_clock
    test_data[0xA4..0xA8].copy_from_slice(&23000000u32.to_le_bytes()); // hu_c6280_clock
    test_data[0xA8..0xAC].copy_from_slice(&24000000u32.to_le_bytes()); // c140_clock
    test_data[0xAC..0xB0].copy_from_slice(&25000000u32.to_le_bytes()); // k053260_clock
    
    test_data[0xB0..0xB4].copy_from_slice(&26000000u32.to_le_bytes()); // pokey_clock
    test_data[0xB4..0xB8].copy_from_slice(&27000000u32.to_le_bytes()); // qsound_clock
    test_data[0xB8..0xBC].copy_from_slice(&28000000u32.to_le_bytes()); // scsp_clock
    // extra_header_offset at 0xBC..0xC0 should remain 0
    
    test_data[0xC0..0xC4].copy_from_slice(&29000000u32.to_le_bytes()); // wonder_swan_clock
    test_data[0xC4..0xC8].copy_from_slice(&30000000u32.to_le_bytes()); // vsu_clock
    test_data[0xC8..0xCC].copy_from_slice(&31000000u32.to_le_bytes()); // saa1099_clock
    test_data[0xCC..0xD0].copy_from_slice(&32000000u32.to_le_bytes()); // es5503_clock
    
    test_data[0xD0..0xD4].copy_from_slice(&33000000u32.to_le_bytes()); // es5506_clock
    test_data[0xD4] = 16; // es5503_nb_channels
    test_data[0xD5] = 32; // es5505_es5506_nb_channels
    test_data[0xD6] = 0x0A; // c352_clock_divider
    test_data[0xD8..0xDC].copy_from_slice(&34000000u32.to_le_bytes()); // x1010_clock
    test_data[0xDC..0xE0].copy_from_slice(&35000000u32.to_le_bytes()); // c352_clock
    
    test_data[0xE0..0xE4].copy_from_slice(&36000000u32.to_le_bytes()); // ga20_clock
    
    let mut bytes = Bytes::from(test_data);
    let header = HeaderData::from_bytes(&mut bytes).unwrap();
    
    // Verify all fields were parsed correctly
    assert_eq!(header.rf5_c68_clock, 1000000);
    assert_eq!(header.ym2203_clock, 2000000);
    assert_eq!(header.ym2608_clock, 3000000);
    assert_eq!(header.ym2610_b_clock, 4000000);
    assert_eq!(header.ym3812_clock, 5000000);
    assert_eq!(header.ym3526_clock, 6000000);
    assert_eq!(header.y8950_clock, 7000000);
    assert_eq!(header.ymf262_clock, 8000000);
    assert_eq!(header.ymf278_b_clock, 9000000);
    assert_eq!(header.ymf271_clock, 10000000);
    assert_eq!(header.ymz280_b_clock, 11000000);
    assert_eq!(header.rf5_c164_clock, 12000000);
    assert_eq!(header.pwm_clock, 13000000);
    assert_eq!(header.ay8910_clock, 14000000);
    assert_eq!(header.ay8910_chip_type, 0x01);
    assert_eq!(header.ay8910_flags, 0x02);
    assert_eq!(header.ym2203_ay8910_flags, 0x03);
    assert_eq!(header.ym2608_ay8910_flags, 0x04);
    assert_eq!(header.volume_modifier, 32);
    assert_eq!(header.loop_base, 0x05);
    assert_eq!(header.loop_modifier, 0x06);
    assert_eq!(header.gb_dmg_clock, 15000000);
    assert_eq!(header.nes_apu_clock, 16000000);
    assert_eq!(header.multi_pcm_clock, 17000000);
    assert_eq!(header.u_pd7759_clock, 18000000);
    assert_eq!(header.okim6258_clock, 19000000);
    assert_eq!(header.okim6258_flags, 0x07);
    assert_eq!(header.k054539_flags, 0x08);
    assert_eq!(header.c140_chip_type, 0x09);
    assert_eq!(header.okim6295_clock, 20000000);
    assert_eq!(header.k051649_k052539_clock, 21000000);
    assert_eq!(header.k054539_clock, 22000000);
    assert_eq!(header.hu_c6280_clock, 23000000);
    assert_eq!(header.c140_clock, 24000000);
    assert_eq!(header.k053260_clock, 25000000);
    assert_eq!(header.pokey_clock, 26000000);
    assert_eq!(header.qsound_clock, 27000000);
    assert_eq!(header.scsp_clock, 28000000);
    assert_eq!(header.wonder_swan_clock, 29000000);
    assert_eq!(header.vsu_clock, 30000000);
    assert_eq!(header.saa1099_clock, 31000000);
    assert_eq!(header.es5503_clock, 32000000);
    assert_eq!(header.es5506_clock, 33000000);
    assert_eq!(header.es5503_nb_channels, 16);
    assert_eq!(header.es5505_es5506_nb_channels, 32);
    assert_eq!(header.c352_clock_divider, 0x0A);
    assert_eq!(header.x1010_clock, 34000000);
    assert_eq!(header.c352_clock, 35000000);
    assert_eq!(header.ga20_clock, 36000000);
}

#[test]
fn test_header_serialization_all_fields() {
    // Test serialization with all fields set to exercise serialization paths
    let header = HeaderData {
        end_of_file_offset: 1000,
        version: 171, // VGM 1.71
        sn76489_clock: 3579545,
        ym2413_clock: 3579545,
        gd3_offset: 0x200,
        total_nb_samples: 176400, // 4 seconds at 44.1kHz
        loop_offset: 0x100,
        loop_nb_samples: 88200, // 2 seconds
        rate: 44100,
        sn76489_feedback: 0x0009,
        sn76489_shift_register_width: 16,
        sn76489_flags: 0x01,
        ym2612_clock: 7670453,
        ym2151_clock: 3579545,
        vgm_data_offset: 0xB0,
        sega_pcm_clock: 4000000,
        spcm_interface: 0x01,
        rf5_c68_clock: 12500000,
        ym2203_clock: 3993600,
        ym2608_clock: 8000000,
        ym2610_b_clock: 8000000,
        ym3812_clock: 3579545,
        ym3526_clock: 3579545,
        y8950_clock: 3579545,
        ymf262_clock: 14318180,
        ymf278_b_clock: 33868800,
        ymf271_clock: 16934400,
        ymz280_b_clock: 16934400,
        rf5_c164_clock: 12500000,
        pwm_clock: 23011361,
        ay8910_clock: 1789773,
        ay8910_chip_type: 0x00,
        ay8910_flags: 0x01,
        ym2203_ay8910_flags: 0x02,
        ym2608_ay8910_flags: 0x03,
        volume_modifier: 32,
        loop_base: 0x01,
        loop_modifier: 0x02,
        gb_dmg_clock: 4194304,
        nes_apu_clock: 1789773,
        multi_pcm_clock: 8053975,
        u_pd7759_clock: 8000000,
        okim6258_clock: 4000000,
        okim6258_flags: 0x02,
        k054539_flags: 0x01,
        c140_chip_type: 0x00,
        okim6295_clock: 1056000,
        k051649_k052539_clock: 1500000,
        k054539_clock: 18432000,
        hu_c6280_clock: 3579545,
        c140_clock: 21390,
        k053260_clock: 3579545,
        pokey_clock: 1789773,
        qsound_clock: 4000000,
        scsp_clock: 22579200,
        extra_header_offset: 0,
        wonder_swan_clock: 3072000,
        vsu_clock: 5000000,
        saa1099_clock: 7159090,
        es5503_clock: 7159090,
        es5506_clock: 16000000,
        es5503_nb_channels: 32,
        es5505_es5506_nb_channels: 32,
        c352_clock_divider: 4,
        x1010_clock: 16000000,
        c352_clock: 25401600,
        ga20_clock: 3579545,
        extra_header: ExtraHeaderData::default(),
    };
    
    let mut buffer = BytesMut::new();
    header.to_bytes(&mut buffer).unwrap();
    
    // Verify the buffer contains expected values
    assert_eq!(&buffer[0..4], b"Vgm ");
    
    // Parse back and compare
    let mut bytes = Bytes::from(buffer.to_vec());
    let parsed = HeaderData::from_bytes(&mut bytes).unwrap();
    
    // Verify key fields
    assert_eq!(header.version, parsed.version);
    assert_eq!(header.sn76489_clock, parsed.sn76489_clock);
    assert_eq!(header.ym2612_clock, parsed.ym2612_clock);
    assert_eq!(header.total_nb_samples, parsed.total_nb_samples);
    assert_eq!(header.gb_dmg_clock, parsed.gb_dmg_clock);
    assert_eq!(header.pokey_clock, parsed.pokey_clock);
    assert_eq!(header.ga20_clock, parsed.ga20_clock);
    assert_eq!(header.es5503_nb_channels, parsed.es5503_nb_channels);
    assert_eq!(header.c352_clock_divider, parsed.c352_clock_divider);
}

#[test]
fn test_header_bcd_version_edge_cases() {
    // Test various BCD version conversion edge cases
    let versions_to_test = vec![
        (100, "Version 1.00"),
        (101, "Version 1.01"),
        (110, "Version 1.10"),
        (150, "Version 1.50"),
        (151, "Version 1.51"),
        (160, "Version 1.60"),
        (161, "Version 1.61"),
        (170, "Version 1.70"),
        (171, "Version 1.71"),
    ];
    
    for (version, description) in versions_to_test {
        let header = HeaderData {
            version,
            sn76489_clock: 3579545,
            vgm_data_offset: 0x40,
            ..Default::default()
        };
        
        let mut buffer = BytesMut::new();
        header.to_bytes(&mut buffer).unwrap();
        
        let mut bytes = Bytes::from(buffer.to_vec());
        let parsed = HeaderData::from_bytes(&mut bytes).unwrap();
        
        assert_eq!(header.version, parsed.version, "Failed for {}", description);
    }
}

#[test]
fn test_header_newer_version_fields() {
    // Test newer VGM version specific fields
    let mut header = HeaderData::default();
    header.version = 171; // VGM 1.71
    header.extra_header_offset = 0xBC;
    header.k051649_k052539_clock = 1500000;
    header.k054539_clock = 18432000;
    header.hu_c6280_clock = 3579545;
    header.c140_clock = 21390;
    header.k053260_clock = 3579545;
    header.pokey_clock = 1789772;
    header.qsound_clock = 4000000;
    header.scsp_clock = 22579200;
    header.wonder_swan_clock = 3072000;
    header.vsu_clock = 5000000;
    header.saa1099_clock = 7159090;
    header.es5503_clock = 7159090;
    header.es5506_clock = 16000000;
    header.x1010_clock = 14318180;
    header.c352_clock = 24576000;
    header.ga20_clock = 3579545;
    
    let mut buffer = BytesMut::new();
    header.to_bytes(&mut buffer).unwrap();
    let mut bytes = Bytes::from(buffer);
    let parsed = HeaderData::from_bytes(&mut bytes).unwrap();
    
    assert_eq!(parsed.extra_header_offset, 0xBC);
    assert_eq!(parsed.k051649_k052539_clock, 1500000);
    assert_eq!(parsed.k054539_clock, 18432000);
    assert_eq!(parsed.hu_c6280_clock, 3579545);
    assert_eq!(parsed.c140_clock, 21390);
    assert_eq!(parsed.k053260_clock, 3579545);
    assert_eq!(parsed.pokey_clock, 1789772);
    assert_eq!(parsed.qsound_clock, 4000000);
    assert_eq!(parsed.scsp_clock, 22579200);
    assert_eq!(parsed.wonder_swan_clock, 3072000);
    assert_eq!(parsed.vsu_clock, 5000000);
    assert_eq!(parsed.saa1099_clock, 7159090);
    assert_eq!(parsed.es5503_clock, 7159090);
    assert_eq!(parsed.es5506_clock, 16000000);
    assert_eq!(parsed.x1010_clock, 14318180);
    assert_eq!(parsed.c352_clock, 24576000);
    assert_eq!(parsed.ga20_clock, 3579545);
}


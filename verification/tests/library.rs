use bytes::{Bytes, BytesMut};
use vgm_parser::command_writer::write_commands;
use vgm_parser::custom_encoder::{CustomDecode, CustomEncode};
use vgm_parser::decompression::{decompress_bit_packing, decompress_dpcm, BitReader};
use vgm_parser::errors::{VgmError, VgmErrorContext, VgmResult};
use vgm_parser::header::HeaderData;
use vgm_parser::metadata::{Gd3LocaleData, VgmMetadata};
use vgm_parser::parser_config::{ParserConfig, ResourceTracker};
use vgm_parser::systems::System;
use vgm_parser::tokenizing::{allocate_commands, find_clock_commands, ChipPayload, ExtendedInstructionSet, Registry};
use vgm_parser::utils::{bcd_from_bytes, decimal_to_bcd};
use vgm_parser::validation::VersionValidator;
use vgm_parser::vgm_commands::{parse_commands_safe, Commands, CompressionType, DataBlockContent, StreamChipType};
use vgm_parser::{readable, validation_defined, VgmFile};
use vgm_parser::errors::file_error;
use vgm_parser::command_writer::is_writable;
use vgm_parser::parser_config::fill_reserved;
use vgm_parser::validation::ValidationConfig;
use vgm_parser::validation::VgmValidator;

fn format_error(e: &VgmError) -> (String, String) {
    match e {
        VgmError::InvalidDataFormat { field, details } => (field.clone(), details.clone()),
        other => panic!("expected an invalid data format error, got {:?}", other),
    }
}

#[test]
fn command_bytes_parse_back_to_the_command() {
    let commands = vec![
        Commands::PSGWrite { value: 0x9F, chip_index: 1 },
        Commands::YM2612Port1Write { register: 0x30, value: 0x71, chip_index: 0 },
        Commands::WaitNSamples { n: 0x1234 },
        Commands::Wait882Samples,
        Commands::EndOfSoundData,
    ];
    for c in commands {
        let bytes = c.clone().to_bytes().unwrap();
        let mut data = Bytes::from(bytes);
        let parsed = Commands::from_bytes(&mut data).unwrap();
        assert_eq!(parsed, c);
        assert!(data.is_empty());
    }
}

#[test]
fn written_stream_parses_back_to_its_commands() {
    let commands = vec![
        Commands::AY8910StereoMask { value: 0x3C },
        Commands::YM2151Write { register: 0x08, value: 0x01, chip_index: 0 },
        Commands::Wait735Samples,
        Commands::EndOfSoundData,
    ];
    let mut buffer = BytesMut::new();
    write_commands(&mut buffer, &commands).unwrap();
    assert_eq!(&buffer[..], &[0x31, 0x3C, 0x54, 0x08, 0x01, 0x62, 0x66][..]);
    let mut data = Bytes::from(buffer.to_vec());
    let parsed = parse_commands_safe(&mut data);
    assert_eq!(parsed, commands);
}

#[test]
fn pcm_ram_write_cannot_be_written() {
    let c = Commands::PCMRAMWrite {
        chip_type: 0,
        read_offset: 0,
        write_offset: 0,
        size: 0,
        data: vec![],
    };
    assert!(matches!(c.to_bytes(), Err(VgmError::FeatureNotSupported { .. })));
}

#[test]
fn psg_chip_index_above_one_is_refused() {
    let c = Commands::PSGWrite { value: 1, chip_index: 2 };
    assert!(c.to_bytes().is_err());
}

#[test]
fn header_bytes_read_back_to_the_header() {
    let mut header = HeaderData::default();
    header.version = 151;
    header.end_of_file_offset = 0x1000;
    header.sn76489_clock = 3579545;
    header.ym2612_clock = 7670453;
    header.rate = 60;
    header.vgm_data_offset = 0x4C;
    let mut buffer = BytesMut::new();
    header.to_bytes(&mut buffer).unwrap();
    assert_eq!(buffer.len(), 0x80);
    let mut data = Bytes::from(buffer.to_vec());
    let parsed = HeaderData::from_bytes(&mut data).unwrap();
    assert_eq!(parsed.version, 151);
    assert_eq!(parsed.end_of_file_offset, 0x1000);
    assert_eq!(parsed.sn76489_clock, 3579545);
    assert_eq!(parsed.ym2612_clock, 7670453);
    assert_eq!(parsed.rate, 60);
    assert_eq!(parsed.vgm_data_offset, 0x4C);
}

#[test]
fn header_with_wrong_magic_reports_what_it_found() {
    let mut bytes = vec![0u8; 64];
    bytes[0..4].copy_from_slice(b"Xgm ");
    let mut data = Bytes::from(bytes);
    match HeaderData::from_bytes(&mut data) {
        Err(VgmError::InvalidMagicBytes { expected, found, offset }) => {
            assert_eq!(expected, "Vgm ");
            assert_eq!(found, "Xgm ");
            assert_eq!(offset, 0);
        },
        other => panic!("unexpected result {:?}", other.map(|h| h.version)),
    }
}

#[test]
fn bcd_of_a_decimal_reads_back() {
    for v in [0u32, 7, 42, 151, 171, 9999, 123456] {
        assert_eq!(bcd_from_bytes(&decimal_to_bcd(v)), v);
    }
}

#[test]
fn metadata_bytes_read_back_to_the_metadata() {
    let metadata = VgmMetadata {
        english_data: Gd3LocaleData {
            track: "Green Hill".to_string(),
            game: "Sonic".to_string(),
            system: "Mega Drive".to_string(),
            author: "Nakamura".to_string(),
        },
        japanese_data: Gd3LocaleData {
            track: "グリーンヒル".to_string(),
            game: "ソニック".to_string(),
            system: "メガドライブ".to_string(),
            author: "中村".to_string(),
        },
        date_release: "1991".to_string(),
        name_vgm_creator: "someone".to_string(),
        notes: "𝄞 notes".to_string(),
    };
    let mut buffer = BytesMut::new();
    metadata.to_bytes(&mut buffer).unwrap();
    assert_eq!(&buffer[0..8], &[0x47, 0x64, 0x33, 0x20, 0x00, 0x01, 0x00, 0x00]);
    let mut data = Bytes::from(buffer.to_vec());
    let parsed = VgmMetadata::from_bytes(&mut data).unwrap();
    assert_eq!(parsed, metadata);
    assert_eq!(data.len(), buffer.len());
}

#[test]
fn metadata_with_unpaired_surrogate_is_refused() {
    let mut bytes = vec![0x47, 0x64, 0x33, 0x20, 0x00, 0x01, 0x00, 0x00];
    let units: Vec<u16> = vec![0xD800, 0, 0, 0, 0, 0, 0, 0, 0, 0, 0, 0];
    bytes.extend_from_slice(&((units.len() * 2) as u32).to_le_bytes());
    for u in &units {
        bytes.extend_from_slice(&u.to_le_bytes());
    }
    let mut data = Bytes::from(bytes);
    assert!(matches!(VgmMetadata::from_bytes(&mut data), Err(VgmError::InvalidUtf16Encoding { .. })));
}

#[test]
fn registry_gives_each_command_one_token() {
    let mut registry = Registry::new();
    let c = Commands::PSGWrite { value: 0x10, chip_index: 0 };
    assert_eq!(allocate_commands(c.clone(), &mut registry, 2), Some(3));
    assert_eq!(allocate_commands(c.clone(), &mut registry, 3), None);
    let d = Commands::PSGWrite { value: 0x11, chip_index: 0 };
    assert_eq!(allocate_commands(d, &mut registry, 3), Some(4));
    assert_eq!(allocate_commands(c, &mut registry, 4), None);
}

#[test]
fn clock_commands_follow_the_header_order() {
    let mut header = HeaderData::default();
    assert!(find_clock_commands(&header).is_empty());
    header.ga20_clock = 5;
    header.sn76489_clock = 3579545;
    header.ym2612_clock = 7670453;
    let found = find_clock_commands(&header);
    assert_eq!(
        found,
        vec![
            ExtendedInstructionSet::SetChip(ChipPayload::new(System::SN76489, 3579545)),
            ExtendedInstructionSet::SetChip(ChipPayload::new(System::YM2612, 7670453)),
            ExtendedInstructionSet::SetChip(ChipPayload::new(System::GA20, 5)),
        ]
    );
}

#[test]
fn bit_reader_reports_underflow_at_the_end() {
    let data = vec![0xF0u8];
    let mut reader = BitReader::new(&data);
    assert_eq!(reader.read_bits(6).unwrap(), 0b111100);
    match reader.read_bits(3) {
        Err(VgmError::BufferUnderflow { offset, needed, available }) => {
            assert_eq!((offset, needed, available), (1, 1, 0));
        },
        other => panic!("unexpected {:?}", other),
    }
}

#[test]
fn bit_reader_refuses_more_than_sixteen_bits() {
    let data = vec![0u8; 4];
    let mut reader = BitReader::new(&data);
    let (field, details) = format_error(&reader.read_bits(17).unwrap_err());
    assert_eq!(field, "bit_count");
    assert_eq!(details, "Cannot read more than 16 bits at once, requested: 17");
    assert_eq!(reader.read_bits(16).unwrap(), 0);
}

#[test]
fn bit_packing_errors_name_their_cause() {
    let data = vec![0xFFu8, 0xFF];
    let (field, details) = format_error(&decompress_bit_packing(&data, 4, 8, 3, 0, 2, None).unwrap_err());
    assert_eq!(field, "bit_packing_sub_type");
    assert_eq!(details, "Unknown bit packing sub-type: 0x03");
    let (field, details) = format_error(&decompress_bit_packing(&data, 4, 8, 2, 0, 2, None).unwrap_err());
    assert_eq!(field, "decompression_table");
    assert_eq!(details, "Bit packing sub-type 0x02 requires a decompression table");
    let table = vec![1u8, 2, 3];
    let (field, details) = format_error(&decompress_bit_packing(&data, 4, 8, 2, 0, 2, Some(&table)).unwrap_err());
    assert_eq!(field, "table_index");
    assert_eq!(details, "Table index 15 out of bounds");
    assert!(matches!(
        decompress_bit_packing(&data, 8, 8, 0, 0, 3, None),
        Err(VgmError::BufferUnderflow { offset: 2, needed: 1, available: 0 })
    ));
    assert_eq!(decompress_bit_packing(&data, 8, 8, 0, 0, 0, None).unwrap(), Vec::<u8>::new());
}

#[test]
fn bit_packing_adds_and_truncates_to_the_size() {
    let data = vec![0x12u8, 0x34];
    assert_eq!(decompress_bit_packing(&data, 4, 12, 0, 0x100, 3, None).unwrap(), vec![0x01, 0x01, 0x02]);
    assert_eq!(decompress_bit_packing(&data, 8, 8, 0, 0xF0, 2, None).unwrap(), vec![0x02, 0x24]);
}

#[test]
fn dpcm_sign_extends_one_byte_deltas() {
    let table = vec![0x05u8, 0xFE];
    let data = vec![0b0101_0000u8];
    assert_eq!(decompress_dpcm(&data, 1, 8, 10, 4, &table).unwrap(), vec![15, 13, 18, 16]);
    let high = vec![0b1000_0000u8];
    let (field, details) = format_error(&decompress_dpcm(&high, 2, 8, 0, 1, &table).unwrap_err());
    assert_eq!(field, "dpcm_table_index");
    assert_eq!(details, "DPCM table index 2 out of bounds");
}

#[test]
fn decompress_data_of_each_kind_of_block() {
    let raw = DataBlockContent::UncompressedStream { chip_type: StreamChipType::YM2612, data: vec![1, 2, 3] };
    assert_eq!(raw.decompress_data(None).unwrap(), vec![1, 2, 3]);
    let dpcm = DataBlockContent::CompressedStream {
        chip_type: StreamChipType::YM2612,
        compression: CompressionType::DPCM { bits_decompressed: 8, bits_compressed: 1, start_value: 0 },
        uncompressed_size: 1,
        data: vec![0],
    };
    let (field, details) = format_error(&dpcm.decompress_data(None).unwrap_err());
    assert_eq!(field, "decompression_table");
    assert_eq!(details, "DPCM decompression requires a decompression table");
    let table = vec![7u8, 9];
    assert_eq!(dpcm.decompress_data(Some(&table)).unwrap(), vec![7]);
    let other = DataBlockContent::Unknown { data: vec![1] };
    let (field, details) = format_error(&other.decompress_data(None).unwrap_err());
    assert_eq!(field, "data_block");
    assert_eq!(details, "Cannot decompress non-stream data blocks");
}

#[test]
fn error_messages_show_their_fields() {
    let e = VgmError::InvalidBcdData { field: "version".to_string(), data: vec![0x0A, 0xFF] };
    assert_eq!(e.message(), "Invalid BCD data for version: [0A, FF]");
    let e = VgmError::UnsupportedVgmVersion { version: 151, supported_range: "1.00+".to_string() };
    assert_eq!(e.message(), "Unsupported VGM version 151 (0x00000097): supported versions are 1.00+");
    let e = VgmError::UnsupportedGd3Version { version: 2, supported_versions: vec![256, 512] };
    assert_eq!(e.message(), "Unsupported GD3 version 2: supported versions are [256, 512]");
    let e = VgmError::UnknownCommand { opcode: 0x0B, position: 7 };
    assert_eq!(e.message(), "Unknown command opcode 0x0B at position 7");
}

#[test]
fn context_is_put_in_front_of_inconsistent_data() {
    let r: VgmResult<u8> = Err(VgmError::InconsistentData { context: "header".to_string(), reason: "bad".to_string() });
    match r.with_context(|| "file".to_string()) {
        Err(VgmError::InconsistentData { context, reason }) => {
            assert_eq!(context, "file: header");
            assert_eq!(reason, "bad");
        },
        other => panic!("unexpected {:?}", other),
    }
    let r: VgmResult<u8> = Err(VgmError::UnknownCommand { opcode: 1, position: 2 });
    assert_eq!(r.with_context(|| "file".to_string()), Err(VgmError::UnknownCommand { opcode: 1, position: 2 }));
    let ok: VgmResult<u8> = Ok(3);
    assert_eq!(ok.with_context_fmt(|| ("a".to_string(), "b".to_string())), Ok(3));
    let r: VgmResult<u8> = Err(VgmError::UnknownCommand { opcode: 1, position: 2 });
    assert_eq!(
        r.with_context_fmt(|| ("a".to_string(), "b".to_string())),
        Err(VgmError::InconsistentData { context: "a".to_string(), reason: "b".to_string() })
    );
}

#[test]
fn version_text_has_two_minor_digits() {
    assert_eq!(VersionValidator::version_to_string(151), "1.51");
    assert_eq!(VersionValidator::version_to_string(105), "1.05");
}

#[test]
fn vgm_file_refuses_zero_parsing_depth() {
    let mut config = ParserConfig::default();
    config.max_parsing_depth = 0;
    let mut data = Bytes::from(vec![0u8; 64]);
    match VgmFile::from_bytes_with_config(&mut data, config) {
        Err(VgmError::ParseStackOverflow { position, max_depth }) => assert_eq!((position, max_depth), (0, 0)),
        other => panic!("unexpected {:?}", other.map(|f| f.commands.len())),
    }
    assert_eq!(data.len(), 64);
}

#[test]
fn vgm_file_reads_header_metadata_and_commands() {
    let mut header = HeaderData::default();
    header.version = 151;
    header.vgm_data_offset = 0x0C;
    let mut buffer = BytesMut::new();
    header.to_bytes(&mut buffer).unwrap();
    assert_eq!(buffer.len(), 0x40);
    let mut bytes = buffer.to_vec();
    bytes.extend_from_slice(&[0x62, 0x66]);
    let mut data = Bytes::from(bytes.clone());
    match VgmFile::from_bytes(&mut data) {
        Err(VgmError::BufferUnderflow { offset, needed, available }) => {
            assert_eq!((offset, needed, available), (0, 8, 2))
        },
        other => panic!("unexpected {:?}", other.map(|f| f.commands.len())),
    }
    assert_eq!(data.len(), 2);
    let mut short = Bytes::from(vec![0x56u8, 0x67, 0x6d, 0x20]);
    assert!(VgmFile::from_bytes(&mut short).is_err());
}

#[test]
fn vgm_file_flags_data_blocks_and_pcm_writes() {
    let file = VgmFile {
        header: HeaderData::default(),
        commands: vec![
            Commands::Wait735Samples,
            Commands::DataBlock {
                block_type: 0,
                data: DataBlockContent::UncompressedStream { chip_type: StreamChipType::YM2612, data: vec![1] },
            },
        ],
        metadata: VgmMetadata {
            english_data: Gd3LocaleData {
                track: String::new(),
                game: String::new(),
                system: String::new(),
                author: String::new(),
            },
            japanese_data: Gd3LocaleData {
                track: String::new(),
                game: String::new(),
                system: String::new(),
                author: String::new(),
            },
            date_release: String::new(),
            name_vgm_creator: String::new(),
            notes: String::new(),
        },
    };
    assert!(file.has_data_block());
    assert!(!file.has_pcm_write());
}

#[test]
fn custom_encoding_reads_back() {
    let commands = vec![
        Commands::YM2608Port0Write { register: 0x28, value: 0xF0, chip_index: 0 },
        Commands::YM2608Port1Write { register: 0x30, value: 0x01, chip_index: 0 },
        Commands::Wait735Samples,
        Commands::WaitNSamplesPlus1 { n: 9 },
        Commands::EndOfSoundData,
    ];
    let mut buffer = BytesMut::new();
    for c in &commands {
        c.encode(&mut buffer);
    }
    assert_eq!(
        &buffer[..],
        &[0x01, 0x01, 0x28, 0xF0, 0x01, 0x02, 0x30, 0x01, 0x02, 0xDF, 0x02, 0x02, 0x0A, 0x00, 0x03][..]
    );
    let mut data = Bytes::from(buffer.to_vec());
    let mut decoded = Vec::new();
    while !data.is_empty() {
        decoded.push(Commands::decode(&mut data));
    }
    assert_eq!(
        decoded,
        vec![
            Commands::YM2608Port0Write { register: 0x28, value: 0xF0, chip_index: 0 },
            Commands::YM2608Port1Write { register: 0x30, value: 0x01, chip_index: 0 },
            Commands::WaitNSamples { n: 735 },
            Commands::WaitNSamples { n: 10 },
            Commands::EndOfSoundData,
        ]
    );
}

#[test]
fn read_command_writes_back_to_its_bytes() {
    for bytes in [vec![0x61u8, 0x34, 0x12], vec![0xB3, 0x85, 0x10], vec![0x90, 1, 0x82, 3, 4], vec![0x7A]] {
        let mut data = Bytes::from(bytes.clone());
        let c = Commands::from_bytes(&mut data).unwrap();
        assert_eq!(c.to_bytes().unwrap(), bytes);
    }
}

#[test]
fn rf5c164_offset_write_is_written_with_another_opcode() {
    let mut data = Bytes::from(vec![0xC2u8, 0x01, 0x02, 0x03]);
    let c = Commands::from_bytes(&mut data).unwrap();
    assert_eq!(c.to_bytes().unwrap()[0], 0xC1);
}

#[test]
fn decompressed_stream_has_its_size() {
    let data = vec![0xABu8, 0xCD, 0xEF];
    for size in 0u32..6 {
        let out = decompress_bit_packing(&data, 4, 8, 0, 0, size, None).unwrap();
        assert_eq!(out.len(), size as usize);
    }
}

#[test]
fn parse_under_limits_stops_at_the_command_limit() {
    let mut config = ParserConfig::default();
    config.max_commands = 2;
    let mut tracker = ResourceTracker::new();
    let mut data = Bytes::from(vec![0x62u8, 0x62, 0x66]);
    match vgm_parser::vgm_commands::parse_commands_with_config(&mut data, &config, &mut tracker) {
        Err(VgmError::DataSizeExceedsLimit { field, size, limit }) => {
            assert_eq!(field, "command_count");
            assert_eq!((size, limit), (3, 2));
        },
        other => panic!("unexpected {:?}", other),
    }
    assert_eq!(tracker.command_count, 3);
    let mut tracker = ResourceTracker::new();
    let mut data = Bytes::from(vec![0x62u8, 0x66]);
    let commands = vgm_parser::vgm_commands::parse_commands_with_config(&mut data, &config, &mut tracker).unwrap();
    assert_eq!(commands, vec![Commands::Wait735Samples, Commands::EndOfSoundData]);
    assert_eq!(tracker.command_count, 2);
}

#[test]
fn parse_under_limits_keeps_block_memory_within_the_limit() {
    let mut config = ParserConfig::default();
    config.max_total_data_block_memory = 4;
    let mut tracker = ResourceTracker::new();
    let mut data = Bytes::from(vec![0x67u8, 0x66, 0x00, 5, 0, 0, 0, 1, 2, 3, 4, 5, 0x66]);
    assert!(vgm_parser::vgm_commands::parse_commands_with_config(&mut data, &config, &mut tracker).is_err());
    assert!(tracker.data_block_memory <= 4);
}

fn empty_texts() -> Gd3LocaleData {
    Gd3LocaleData { track: String::new(), game: String::new(), system: String::new(), author: String::new() }
}

#[test]
fn quick_validate_checks_metadata_texts() {
    let mut metadata = VgmMetadata {
        english_data: empty_texts(),
        japanese_data: empty_texts(),
        date_release: String::new(),
        name_vgm_creator: String::new(),
        notes: String::new(),
    };
    assert!(vgm_parser::validation::VgmValidate::quick_validate(&metadata).is_ok());
    metadata.notes = "a\0b".to_string();
    match vgm_parser::validation::VgmValidate::quick_validate(&metadata) {
        Err(VgmError::ValidationFailed { reason, .. }) => assert_eq!(reason, "String contains null bytes"),
        other => panic!("unexpected {:?}", other),
    }
}

#[test]
fn writable_and_encodable_checks() {
    assert!(is_writable(&Commands::WaitNSamplesPlus1 { n: 0x8F }));
    assert!(!is_writable(&Commands::WaitNSamplesPlus1 { n: 0x90 }));
    assert!(!is_writable(&Commands::YM2612Port0Address2AWriteWait { n: 0x80 }));
    assert!(is_writable(&Commands::Wait735Samples));
    assert!(vgm_parser::custom_encoder::is_custom_encodable(&Commands::EndOfSoundData));
    assert!(!vgm_parser::custom_encoder::is_custom_encodable(&Commands::WaitNSamplesPlus1 { n: 255 }));
    assert!(!vgm_parser::custom_encoder::is_custom_encodable(&Commands::PSGWrite { value: 1, chip_index: 0 }));
}

#[test]
fn register_counts_count_both_ports() {
    let commands = vec![
        Commands::YM2608Port0Write { register: 0x28, value: 1, chip_index: 0 },
        Commands::YM2608Port1Write { register: 0x28, value: 2, chip_index: 0 },
        Commands::YM2608Port0Write { register: 0x30, value: 3, chip_index: 1 },
        Commands::Wait735Samples,
    ];
    let counts = vgm_parser::custom_encoder::ym2608_register_counts(&commands);
    assert_eq!(counts.len(), 256);
    assert_eq!(counts[0x28], 2);
    assert_eq!(counts[0x30], 1);
    assert_eq!(counts.iter().sum::<u32>(), 3);
}

#[test]
fn header_positions_and_validation_checks() {
    let mut header = HeaderData::default();
    header.version = 151;
    assert!(vgm_parser::header::positions_fit(&header));
    header.vgm_data_offset = u32::MAX - 0x33;
    assert!(!vgm_parser::header::positions_fit(&header));
    let validator = VgmValidator::default();
    let mut h = HeaderData::default();
    h.version = 151;
    h.gd3_offset = u32::MAX;
    assert!(!validator.can_validate(&h, 1000));
    h.gd3_offset = 2000;
    h.loop_offset = u32::MAX;
    assert!(validator.can_validate(&h, 1000));
    h.version = 50;
    h.gd3_offset = u32::MAX;
    assert!(validator.can_validate(&h, 1000));
}

#[test]
fn version_is_accepted_as_number_or_bcd() {
    let config = ValidationConfig::default();
    assert!(VersionValidator::validate_version(151, &config).is_ok());
    assert!(VersionValidator::validate_version(0x151, &config).is_ok());
    assert!(VersionValidator::validate_version(0x171, &config).is_ok());
    assert!(VersionValidator::validate_version(0x172, &config).is_err());
    assert!(VersionValidator::validate_version(0x1A0, &config).is_err());
}

#[test]
fn file_bytes_are_checked_for_size() {
    match VgmFile::from_file_bytes("a.vgm", &[0u8; 10], ValidationConfig::default(), ParserConfig::default()) {
        Err(VgmError::FileTooSmall { path, size }) => {
            assert_eq!(path, "a.vgm");
            assert_eq!(size, 10);
        },
        other => panic!("unexpected {:?}", other.map(|f| f.commands.len())),
    }
    let mut config = ValidationConfig::default();
    config.max_file_size = 100;
    match VgmFile::from_file_bytes("a.vgm", &[0u8; 200], config, ParserConfig::default()) {
        Err(VgmError::DataSizeExceedsLimit { field, size, limit }) => {
            assert_eq!(field, "decompressed_file_size");
            assert_eq!((size, limit), (200, 100));
        },
        other => panic!("unexpected {:?}", other.map(|f| f.commands.len())),
    }
    let bad_magic = VgmFile::from_file_bytes("a.vgm", &[0u8; 64], ValidationConfig::default(), ParserConfig::default());
    assert!(matches!(bad_magic, Err(VgmError::InvalidMagicBytes { .. })));
}

#[test]
fn fill_reserved_appends_or_refuses() {
    assert_eq!(fill_reserved(vec![1u8], vec![2, 3], 2, "x").unwrap(), vec![1, 2, 3]);
    match fill_reserved(Vec::<u8>::new(), vec![1, 2, 3], 2, "x") {
        Err(VgmError::DataSizeExceedsLimit { field, size, limit }) => {
            assert_eq!(field, "x");
            assert_eq!((size, limit), (3, 2));
        },
        other => panic!("unexpected {:?}", other),
    }
}

#[test]
fn readable_tells_whether_reading_stays_within_the_data() {
    let mut header = HeaderData::default();
    header.version = 151;
    header.vgm_data_offset = 0x0C;
    let mut buffer = BytesMut::new();
    header.to_bytes(&mut buffer).unwrap();
    let mut bytes = buffer.to_vec();
    bytes.extend_from_slice(&[0x62, 0x66]);
    let data = Bytes::from(bytes.clone());
    assert!(readable(&data, None));
    assert!(readable(&data, Some(ParserConfig::default())));
    assert_eq!(data.len(), 0x42);

    // The VGM data is said to start past the end of a 64-byte header.
    let mut beyond = bytes[..0x40].to_vec();
    beyond[0x34..0x38].copy_from_slice(&0x100u32.to_le_bytes());
    assert!(!readable(&Bytes::from(beyond.clone()), None));
    assert!(!readable(&Bytes::from(beyond), Some(ParserConfig::default())));

    // Too short for a header: refused without limits, a read past the end with them.
    let short = Bytes::from(vec![0x56u8, 0x67, 0x6d, 0x20]);
    assert!(readable(&short, None));
    assert!(!readable(&short, Some(ParserConfig::default())));

    // A wrong magic is refused before anything else is read.
    let mut wrong = bytes.clone();
    wrong[0] = b'X';
    assert!(readable(&Bytes::from(wrong), Some(ParserConfig::default())));
}

#[test]
fn header_read_within_limits_is_the_header_read_without() {
    let mut header = HeaderData::default();
    header.version = 151;
    header.sn76489_clock = 3579545;
    header.ym2612_clock = 7670453;
    header.vgm_data_offset = 0x4C;
    let mut buffer = BytesMut::new();
    header.to_bytes(&mut buffer).unwrap();
    let bytes = buffer.to_vec();
    let plain = HeaderData::from_bytes(&mut Bytes::from(bytes.clone())).unwrap();
    let mut tracker = ResourceTracker::new();
    let config = ParserConfig::default();
    let limited = HeaderData::from_bytes_with_config(&mut Bytes::from(bytes), &config, &mut tracker).unwrap();
    assert_eq!(format!("{:?}", plain), format!("{:?}", limited));
    assert_eq!(tracker.parsing_depth, 0);
}

#[test]
fn header_fields_past_the_data_start_read_back_as_zero() {
    let mut header = HeaderData::default();
    header.version = 151;
    header.vgm_data_offset = 0x10; // the VGM data starts at 0x44
    header.rf5_c68_clock = 12500000;
    header.ym2203_clock = 3000000;
    let mut buffer = BytesMut::new();
    header.to_bytes(&mut buffer).unwrap();
    let parsed = HeaderData::from_bytes(&mut Bytes::from(buffer.to_vec())).unwrap();
    assert_eq!(parsed.vgm_data_offset, 0x10);
    assert_eq!(parsed.rf5_c68_clock, 12500000);
    assert_eq!(parsed.ym2203_clock, 0);
}

#[test]
fn io_errors_become_errors_about_the_file() {
    let not_found = file_error(std::io::Error::new(std::io::ErrorKind::NotFound, "gone"), "a.vgm");
    match not_found {
        VgmError::FileNotFound { path, io_kind } => {
            assert_eq!(path, "a.vgm");
            assert_eq!(io_kind, Some(std::io::ErrorKind::NotFound));
        },
        other => panic!("unexpected {:?}", other),
    }
    let denied = file_error(std::io::Error::new(std::io::ErrorKind::PermissionDenied, "no"), "b.vgm");
    assert!(matches!(denied, VgmError::PermissionDenied { ref path } if path == "b.vgm"));
    let other = file_error(std::io::Error::new(std::io::ErrorKind::InvalidData, "broken"), "c.vgm");
    match other {
        VgmError::FileReadError { path, reason } => {
            assert_eq!(path, "c.vgm");
            assert_eq!(reason, "broken");
        },
        e => panic!("unexpected {:?}", e),
    }
    let converted: VgmError = std::io::Error::new(std::io::ErrorKind::InvalidData, "broken").into();
    assert!(matches!(converted, VgmError::FileReadError { ref path, .. } if path == "unknown"));
}

#[test]
fn utf16_errors_keep_their_message() {
    let err = String::from_utf16(&[0xD800u16]).unwrap_err();
    let text = err.to_string();
    match VgmError::from(err) {
        VgmError::InvalidUtf16Encoding { field, details } => {
            assert_eq!(field, "unknown");
            assert_eq!(details, text);
        },
        other => panic!("unexpected {:?}", other),
    }
}

#[test]
fn validation_is_defined_for_bytes_from_which_no_file_is_read() {
    let mut header = HeaderData::default();
    header.version = 151;
    header.vgm_data_offset = 0x0C;
    header.gd3_offset = 0xFFFF_FFF0;
    let mut buffer = BytesMut::new();
    header.to_bytes(&mut buffer).unwrap();
    let mut bytes = buffer.to_vec();
    bytes.extend_from_slice(&[0x62, 0x66]);
    assert!(readable(&Bytes::from(bytes.clone()), Some(ParserConfig::default())));
    assert!(validation_defined(&bytes, ValidationConfig::default(), ParserConfig::default()));
}

use vgm_parser::header::HeaderData;
use vgm_parser::validation::{ChipValidator, OffsetValidator, ValidationConfig, VersionValidator};



#[test]
fn test_version_validator() {
    let config = ValidationConfig::default();

    // Valid version (1.51 in decimal)
    assert!(VersionValidator::validate_version(151, &config).is_ok());

    // Too old version (0.50 in decimal)
    assert!(VersionValidator::validate_version(50, &config).is_err());

    // Too new version (2.00 in decimal)
    assert!(VersionValidator::validate_version(200, &config).is_err());
}

#[test]
fn test_offset_validator() {
    // Valid offset
    assert!(OffsetValidator::validate_offset(100, 1000, "test").is_ok());

    // Invalid offset - beyond file
    assert!(OffsetValidator::validate_offset(1500, 1000, "test").is_err());

    // Valid range
    assert!(OffsetValidator::validate_range(100, 50, 1000, "test").is_ok());

    // Invalid range - beyond file
    assert!(OffsetValidator::validate_range(950, 100, 1000, "test").is_err());
}

#[test]
fn test_chip_validator() {
    let mut header = HeaderData::default();

    // Valid chip clocks
    header.sn76489_clock = 3579545; // Common PSG clock
    header.ym2612_clock = 7670453; // Common YM2612 clock
    assert!(ChipValidator::validate_chip_clocks(&header).is_ok());

    // Invalid clock - too high
    header.sn76489_clock = 50_000_000; // Way too high
    assert!(ChipValidator::validate_chip_clocks(&header).is_err());
}

#[test]
fn test_validation_config() {
    let config = ValidationConfig::default();
    assert!(config.min_vgm_version > 0);
    assert!(config.max_vgm_version > config.min_vgm_version);
    assert!(config.max_file_size > 1024);
}


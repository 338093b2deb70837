use paperwave::{
    classify_eeprom, exif_orientation_from_jpeg, handle_io_error, is_blank_eeprom, parse_eeprom,
    parse_tiff_orientation, probe_system, read_eeprom, uc8159_resolution_from_probe, DisplaySpec,
    EepromInfo, EepromRead, I2cBusReport, I2cProbeStatus, InvalidRecord, IoErrorClass,
    ProbeError, SystemScan, EEPROM_LENGTH,
};

fn record(width: u16, height: u16, variant: u8) -> Vec<u8> {
    let mut data = vec![0u8; EEPROM_LENGTH];
    data[0..2].copy_from_slice(&width.to_le_bytes());
    data[2..4].copy_from_slice(&height.to_le_bytes());
    data[4] = 7;
    data[5] = 12;
    data[6] = variant;
    data
}

#[test]
fn valid_record_with_variant_14_is_600x448_uc8159() {
    let status = classify_eeprom(&record(600, 448, 14));
    let info = match status {
        I2cProbeStatus::Found(info) => info,
        other => panic!("unexpected {other:?}"),
    };
    assert_eq!(
        info,
        EepromInfo { width: 600, height: 448, color: 7, pcb_variant: 12, display_variant: 14 }
    );
    assert_eq!(
        info.display_spec(),
        Some(DisplaySpec::Uc8159 { width: 600, height: 448, variant: 14 })
    );
    assert_eq!(info.variant_name(), "7-Colour (UC8159) 600x448");
}

#[test]
fn zero_width_is_invalid() {
    let status = classify_eeprom(&record(0, 448, 14));
    assert!(matches!(
        status,
        I2cProbeStatus::Invalid(InvalidRecord::Dimensions { width: 0, height: 448 })
    ));
}

#[test]
fn max_height_is_invalid() {
    let status = classify_eeprom(&record(600, 0xFFFF, 14));
    assert!(matches!(
        status,
        I2cProbeStatus::Invalid(InvalidRecord::Dimensions { width: 600, height: 0xFFFF })
    ));
}

#[test]
fn variant_255_is_invalid() {
    let status = classify_eeprom(&record(600, 448, 255));
    assert!(matches!(status, I2cProbeStatus::Invalid(InvalidRecord::DisplayVariant)));
    assert_eq!(parse_eeprom(&record(600, 448, 255)), Err(InvalidRecord::DisplayVariant));
}

#[test]
fn all_zero_and_all_ff_records_are_blank() {
    assert!(matches!(classify_eeprom(&[0u8; EEPROM_LENGTH]), I2cProbeStatus::Blank));
    assert!(matches!(classify_eeprom(&[0xFFu8; EEPROM_LENGTH]), I2cProbeStatus::Blank));
    let mut mixed = [0xFFu8; EEPROM_LENGTH];
    mixed[10] = 0;
    assert!(is_blank_eeprom(&mixed));
    mixed[11] = 3;
    assert!(!is_blank_eeprom(&mixed));
}

#[test]
fn other_variants_have_specs_or_none() {
    let info = parse_eeprom(&record(640, 400, 16)).unwrap();
    assert_eq!(info.display_spec(), Some(DisplaySpec::Uc8159 { width: 640, height: 400, variant: 16 }));
    let info = parse_eeprom(&record(1600, 1200, 21)).unwrap();
    assert_eq!(info.display_spec(), Some(DisplaySpec::El133Uf1 { width: 1600, height: 1200 }));
    let info = parse_eeprom(&record(250, 122, 10)).unwrap();
    assert_eq!(info.display_spec(), None);
    assert_eq!(info.variant_name(), "Black pHAT (SSD1608)");
    let info = parse_eeprom(&record(250, 122, 200)).unwrap();
    assert_eq!(info.variant_name(), "Unknown");
}

#[test]
fn read_outcomes_are_classified() {
    assert!(matches!(
        read_eeprom(EepromRead::Failed { class: IoErrorClass::NotFound, message: "x".to_string() }),
        I2cProbeStatus::Unavailable
    ));
    assert!(matches!(
        handle_io_error(IoErrorClass::PermissionDenied, "denied".to_string()),
        I2cProbeStatus::Unavailable
    ));
    match handle_io_error(IoErrorClass::Other, "bus fault".to_string()) {
        I2cProbeStatus::Error(msg) => assert_eq!(msg, "bus fault"),
        other => panic!("unexpected {other:?}"),
    }
    assert!(matches!(read_eeprom(EepromRead::Data(vec![1, 2])), I2cProbeStatus::Error(_)));
    assert!(matches!(
        read_eeprom(EepromRead::Data(record(600, 448, 14))),
        I2cProbeStatus::Found(_)
    ));
}

fn report(path: &str, status: I2cProbeStatus) -> I2cBusReport {
    I2cBusReport { path: path.to_string(), status }
}

#[test]
fn first_found_record_wins() {
    let first = parse_eeprom(&record(600, 448, 14)).unwrap();
    let second = parse_eeprom(&record(1600, 1200, 21)).unwrap();
    let scan = SystemScan {
        spi_devices: vec!["/dev/spidev0.0".to_string()],
        gpio_chips: vec!["/dev/gpiochip0".to_string()],
        gpio_chip_labels: vec![],
        i2c_bus_results: vec![
            report("/dev/i2c-0", I2cProbeStatus::Error("timeout".to_string())),
            report("/dev/i2c-1", I2cProbeStatus::Found(first)),
            report("/dev/i2c-2", I2cProbeStatus::Found(second)),
            report("/dev/i2c-3", I2cProbeStatus::Invalid(InvalidRecord::DisplayVariant)),
        ],
    };
    let info = probe_system(scan);
    assert_eq!(info.eeprom, Some(first));
    assert_eq!(info.eeprom_bus.as_deref(), Some("/dev/i2c-1"));
    assert_eq!(info.display, Some(DisplaySpec::Uc8159 { width: 600, height: 448, variant: 14 }));
    // The first diagnostic is kept although a later bus held a record.
    match &info.eeprom_error {
        Some(ProbeError::Error(msg)) => assert_eq!(msg, "timeout"),
        other => panic!("unexpected {other:?}"),
    }
    assert_eq!(info.i2c_buses, vec!["/dev/i2c-0", "/dev/i2c-1", "/dev/i2c-2", "/dev/i2c-3"]);
    assert_eq!(info.i2c_bus_results.len(), 4);
    assert_eq!(uc8159_resolution_from_probe(&info), Some((600, 448)));
}

#[test]
fn probe_without_record_keeps_first_diagnostic() {
    let scan = SystemScan {
        spi_devices: vec![],
        gpio_chips: vec![],
        gpio_chip_labels: vec![],
        i2c_bus_results: vec![
            report("/dev/i2c-0", I2cProbeStatus::Unavailable),
            report("/dev/i2c-1", I2cProbeStatus::Blank),
            report("/dev/i2c-2", I2cProbeStatus::Error("nack".to_string())),
            report("/dev/i2c-3", I2cProbeStatus::Invalid(InvalidRecord::DisplayVariant)),
        ],
    };
    let info = probe_system(scan);
    assert_eq!(info.eeprom, None);
    assert_eq!(info.display, None);
    assert_eq!(info.eeprom_bus, None);
    match &info.eeprom_error {
        Some(ProbeError::Error(msg)) => assert_eq!(msg, "nack"),
        other => panic!("unexpected {other:?}"),
    }
    assert_eq!(uc8159_resolution_from_probe(&info), None);
}

#[test]
fn el133uf1_probe_has_no_uc8159_resolution() {
    let rec = parse_eeprom(&record(1600, 1200, 21)).unwrap();
    let scan = SystemScan {
        spi_devices: vec![],
        gpio_chips: vec![],
        gpio_chip_labels: vec![],
        i2c_bus_results: vec![report("/dev/i2c-1", I2cProbeStatus::Found(rec))],
    };
    let info = probe_system(scan);
    assert_eq!(info.display, Some(DisplaySpec::El133Uf1 { width: 1600, height: 1200 }));
    assert_eq!(info.eeprom_error.is_none(), true);
    assert_eq!(uc8159_resolution_from_probe(&info), None);
}

fn tiff(be: bool, typ: u16, count: u32, value: u16) -> Vec<u8> {
    let mut t = Vec::new();
    let p16 = |t: &mut Vec<u8>, v: u16| {
        if be { t.extend_from_slice(&v.to_be_bytes()) } else { t.extend_from_slice(&v.to_le_bytes()) }
    };
    let p32 = |t: &mut Vec<u8>, v: u32| {
        if be { t.extend_from_slice(&v.to_be_bytes()) } else { t.extend_from_slice(&v.to_le_bytes()) }
    };
    t.extend_from_slice(if be { b"MM" } else { b"II" });
    p16(&mut t, 0x2A);
    p32(&mut t, 8);
    p16(&mut t, 2);
    // An unrelated entry first, then the orientation tag.
    p16(&mut t, 0x010F);
    p16(&mut t, 2);
    p32(&mut t, 4);
    p32(&mut t, 0);
    p16(&mut t, 0x0112);
    p16(&mut t, typ);
    p32(&mut t, count);
    p16(&mut t, value);
    p16(&mut t, 0);
    p32(&mut t, 0);
    t
}

#[test]
fn tiff_orientation_in_both_byte_orders() {
    assert_eq!(parse_tiff_orientation(&tiff(true, 3, 1, 6)), Some(90));
    assert_eq!(parse_tiff_orientation(&tiff(false, 3, 1, 3)), Some(180));
    assert_eq!(parse_tiff_orientation(&tiff(false, 3, 1, 8)), Some(270));
    assert_eq!(parse_tiff_orientation(&tiff(true, 3, 1, 1)), None);
    assert_eq!(parse_tiff_orientation(&tiff(true, 4, 1, 6)), None);
    assert_eq!(parse_tiff_orientation(b"XX\0*\0\0\0\x08"), None);
    assert_eq!(parse_tiff_orientation(&[0x4D, 0x4D]), None);
}

#[test]
fn tiff_orientation_stored_at_offset() {
    // Count 2 with type SHORT: the value sits at the offset field's target.
    let mut t = tiff(false, 3, 2, 38);
    t.extend_from_slice(&[8, 0]);
    assert_eq!(parse_tiff_orientation(&t), Some(270));
}

#[test]
fn jpeg_scan_finds_exif_after_other_segments() {
    let body = tiff(true, 3, 1, 8);
    let mut bytes = vec![0xFF, 0xD8];
    // An APP0 segment of 4 data bytes.
    bytes.extend_from_slice(&[0xFF, 0xE0, 0x00, 0x06, 1, 2, 3, 4]);
    let seg_len = (body.len() + 6 + 2) as u16;
    bytes.extend_from_slice(&[0xFF, 0xE1]);
    bytes.extend_from_slice(&seg_len.to_be_bytes());
    bytes.extend_from_slice(b"Exif\0\0");
    bytes.extend_from_slice(&body);
    bytes.extend_from_slice(&[0xFF, 0xD9]);
    assert_eq!(exif_orientation_from_jpeg(&bytes), Some(270));
    assert_eq!(exif_orientation_from_jpeg(&bytes[2..]), None);
    assert_eq!(exif_orientation_from_jpeg(&[0xFF, 0xD8, 0xFF, 0xD9, 0, 0]), None);
}

#[test]
fn diagnostic_after_record_is_kept_when_first() {
    let rec = parse_eeprom(&record(600, 448, 14)).unwrap();
    let scan = SystemScan {
        spi_devices: vec![],
        gpio_chips: vec![],
        gpio_chip_labels: vec![],
        i2c_bus_results: vec![
            report("/dev/i2c-0", I2cProbeStatus::Found(rec)),
            report("/dev/i2c-1", I2cProbeStatus::Invalid(InvalidRecord::DisplayVariant)),
        ],
    };
    let info = probe_system(scan);
    assert_eq!(info.eeprom, Some(rec));
    assert!(matches!(info.eeprom_error, Some(ProbeError::Invalid(InvalidRecord::DisplayVariant))));
}

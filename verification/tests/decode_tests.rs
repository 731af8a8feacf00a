use tempest::decode::error::DecodeError;
use tempest::decode::msg1::Msg1Header;
use tempest::decode::msg31::Msg31Header;
use tempest::decode::types::{Gate, Moment, Radial, StationId, Sweep, VolumeScan};
use tempest::decode::volume::decode;

fn f(bits: u32) -> f32 {
    f32::from_bits(bits)
}

// ----------------------------------------------------------------- errors

#[test]
fn test_insufficient_bytes_error() {
    let err = DecodeError::InsufficientBytes { needed: 16, have: 8 };
    assert_eq!(err.message(), "Insufficient bytes: need 16, have 8");
}

#[test]
fn test_invalid_message_type_error() {
    let err = DecodeError::InvalidMessageType(5);
    assert_eq!(err.message(), "Invalid message type: expected 31, got 5");
}

#[test]
fn error_messages_of_other_variants() {
    assert_eq!(DecodeError::Truncated("x".to_string()).message(), "Input data is truncated: x");
    assert_eq!(
        DecodeError::InvalidMagic { expected: "AR2V".to_string(), found: "ABCD".to_string() }.message(),
        "Invalid magic bytes: expected AR2V, found ABCD"
    );
    assert_eq!(DecodeError::MissingMoment("REF".to_string()).message(), "Missing required moment: REF");
    assert_eq!(DecodeError::IoError("boom".to_string()).message(), "I/O error: boom");
}

// ----------------------------------------------------------------- message 31

#[test]
fn test_parse_msg31_header() {
    let bytes: &[u8] = &[
        0x00, 0x1F, 0xA2, 0x1B, 0x00, 0x1C, 0x9C, 0x40, b'K', b'T', b'L', b'X',
    ];
    let header = Msg31Header::parse(bytes).unwrap();
    assert_eq!(header.id, 31);
    assert_eq!(header.date, 0xA21B);
    assert_eq!(header.time, 0x001C9C40);
    assert_eq!(header.station_id.as_str().unwrap(), "KTLX");
}

#[test]
fn test_parse_msg31_header_kokc() {
    let bytes: &[u8] = &[
        0x00, 0x1F, 0xB0, 0x1C, 0x80, 0x96, 0x98, 0x00, b'K', b'O', b'K', b'C',
    ];
    let header = Msg31Header::parse(bytes).unwrap();
    assert_eq!(header.id, 31);
    assert_eq!(header.station_id.as_str().unwrap(), "KOKC");
}

#[test]
fn msg31_test_parse_insufficient_bytes() {
    let bytes: &[u8] = &[0x00, 0x1F];
    let result = Msg31Header::parse(bytes);
    assert!(matches!(result, Err(DecodeError::InsufficientBytes { needed: 12, have: 2 })));
}

#[test]
fn msg31_test_parse_invalid_message_type() {
    let bytes: &[u8] = &[
        0x00, 0x05, 0x00, 0x00, 0x00, 0x00, 0x00, 0x00, b'K', b'T', b'L', b'X',
    ];
    let result = Msg31Header::parse(bytes);
    assert!(matches!(result, Err(DecodeError::InvalidMessageType(5))));
}

#[test]
fn msg31_test_time_hmsms() {
    let header = Msg31Header { id: 31, date: 20500, time: 43_200_000, station_id: StationId::new(*b"KTLX") };
    let (hours, minutes, seconds, milliseconds) = header.time_hmsms();
    assert_eq!(hours, 12);
    assert_eq!(minutes, 0);
    assert_eq!(seconds, 0);
    assert_eq!(milliseconds, 0);
}

#[test]
fn msg31_test_time_hmsms_complex() {
    let header = Msg31Header { id: 31, date: 20500, time: 52_245_123, station_id: StationId::new(*b"KTLX") };
    let (hours, minutes, seconds, milliseconds) = header.time_hmsms();
    assert_eq!(hours, 14);
    assert_eq!(minutes, 30);
    assert_eq!(seconds, 45);
    assert_eq!(milliseconds, 123);
}

#[test]
fn msg31_test_station_identifier() {
    let header = Msg31Header { id: 31, date: 20500, time: 0, station_id: StationId::new(*b"KTLX") };
    assert_eq!(header.station_identifier().unwrap(), "KTLX");
}

#[test]
fn msg31_station_identifier_rejects_invalid_utf8() {
    let header = Msg31Header { id: 31, date: 0, time: 0, station_id: StationId::new([b'K', 0xFF, b'L', b'X']) };
    let err = header.station_identifier().unwrap_err();
    assert_eq!(err.valid_up_to, 1);
    assert_eq!(err.error_len, Some(1));
}

#[test]
fn msg31_hours_wrap_past_a_byte() {
    // 300 hours of milliseconds: the hour count is kept as a byte.
    let header = Msg31Header { id: 31, date: 0, time: 300 * 3_600_000, station_id: StationId::new(*b"KTLX") };
    assert_eq!(header.time_hmsms(), (44, 0, 0, 0));
}

// ----------------------------------------------------------------- message 1

fn msg1(id: u16, time: u32, station: &[u8; 4], ics: u8, ew: i16, sn: i16, elev_raw: u16) -> Vec<u8> {
    let mut b = Vec::new();
    b.extend_from_slice(&id.to_be_bytes());
    b.extend_from_slice(&0u16.to_be_bytes());
    b.extend_from_slice(&time.to_be_bytes());
    b.extend_from_slice(station);
    b.push(ics);
    b.extend_from_slice(&ew.to_be_bytes());
    b.extend_from_slice(&sn.to_be_bytes());
    b.extend_from_slice(&elev_raw.to_be_bytes());
    b
}

#[test]
fn test_parse_msg1_header() {
    let bytes: &[u8] = &[
        0x00, 0x01, 0xA2, 0x1B, 0x00, 0x1C, 0x9C, 0x40, b'K', b'T', b'L', b'X', 0x00, 0x00, 0x00, 0x00,
        0x00, 0x00, 0x32,
    ];
    let header = Msg1Header::parse(bytes).unwrap();
    assert_eq!(header.id, 1);
    assert_eq!(header.date, 0xA21B);
    assert_eq!(header.time, 0x001C9C40);
    assert_eq!(header.station_id.as_str().unwrap(), "KTLX");
    assert_eq!(header.ics, 0);
    assert_eq!(header.east_west, 0);
    assert_eq!(header.south_north, 0);
    assert_eq!(f(header.elevation), 25.0);
}

#[test]
fn test_parse_msg1_header_kokc() {
    let bytes: &[u8] = &[
        0x00, 0x01, 0xB0, 0x1C, 0x80, 0x96, 0x98, 0x00, b'K', b'O', b'K', b'C', 0x01, 0x00, 0x10, 0xFF,
        0xF0, 0x00, 0x0A,
    ];
    let header = Msg1Header::parse(bytes).unwrap();
    assert_eq!(header.id, 1);
    assert_eq!(header.station_id.as_str().unwrap(), "KOKC");
    assert_eq!(header.ics, 1);
    assert_eq!(header.east_west, 16);
    assert_eq!(header.south_north, -16);
    assert_eq!(f(header.elevation), 5.0);
}

#[test]
fn msg1_test_parse_insufficient_bytes() {
    let bytes: &[u8] = &[0x00, 0x01];
    let result = Msg1Header::parse(bytes);
    assert!(matches!(result, Err(DecodeError::InsufficientBytes { needed: 19, have: 2 })));
}

#[test]
fn msg1_test_parse_invalid_message_type() {
    let bytes = msg1(31, 0, b"KTLX", 0, 0, 0, 0);
    let result = Msg1Header::parse(&bytes);
    assert!(matches!(result, Err(DecodeError::InvalidMessageType(31))));
}

#[test]
fn test_parse_invalid_message_type_5() {
    let bytes = msg1(5, 0, b"KTLX", 0, 0, 0, 0);
    let result = Msg1Header::parse(&bytes);
    assert!(matches!(result, Err(DecodeError::InvalidMessageType(5))));
}

#[test]
fn test_ics_field_parsing() {
    let bytes = msg1(1, 0, b"KTLX", 2, 0, 0, 0);
    let header = Msg1Header::parse(&bytes).unwrap();
    assert_eq!(header.ics, 2);
}

#[test]
fn test_velocity_field_parsing() {
    let bytes = msg1(1, 0, b"KTLX", 0, 20, -20, 0);
    let header = Msg1Header::parse(&bytes).unwrap();
    assert_eq!(header.east_west, 20);
    assert_eq!(header.south_north, -20);
    assert_eq!(f(header.east_west_ms()), 10.0);
    assert_eq!(f(header.south_north_ms()), -10.0);
}

#[test]
fn test_elevation_parsing() {
    let bytes = msg1(1, 0, b"KTLX", 0, 0, 0, 500);
    let header = Msg1Header::parse(&bytes).unwrap();
    assert_eq!(f(header.elevation), 250.0);
}

fn msg1_header(time: u32, ew: i16, sn: i16) -> Msg1Header {
    Msg1Header {
        id: 1,
        date: 20500,
        time,
        station_id: StationId::new(*b"KTLX"),
        ics: 0,
        east_west: ew,
        south_north: sn,
        elevation: 0.0f32.to_bits(),
    }
}

#[test]
fn msg1_test_time_hmsms() {
    let header = msg1_header(43_200_000, 0, 0);
    let (hours, minutes, seconds, milliseconds) = header.time_hmsms();
    assert_eq!(hours, 12);
    assert_eq!(minutes, 0);
    assert_eq!(seconds, 0);
    assert_eq!(milliseconds, 0);
}

#[test]
fn msg1_test_time_hmsms_complex() {
    let header = msg1_header(52_245_123, 0, 0);
    let (hours, minutes, seconds, milliseconds) = header.time_hmsms();
    assert_eq!(hours, 14);
    assert_eq!(minutes, 30);
    assert_eq!(seconds, 45);
    assert_eq!(milliseconds, 123);
}

#[test]
fn msg1_test_station_identifier() {
    let header = msg1_header(0, 0, 0);
    assert_eq!(header.station_identifier().unwrap(), "KTLX");
}

#[test]
fn test_velocity_conversion_methods() {
    let header = msg1_header(0, 10, -6);
    assert_eq!(f(header.east_west_ms()), 5.0);
    assert_eq!(f(header.south_north_ms()), -3.0);
}

#[test]
fn msg1_odd_velocity_is_a_half() {
    let header = msg1_header(0, -3, 7);
    assert_eq!(f(header.east_west_ms()), -1.5);
    assert_eq!(f(header.south_north_ms()), 3.5);
}

// ----------------------------------------------------------------- types

#[test]
fn test_station_id_as_str() {
    let station = StationId::new(*b"KTLX");
    assert_eq!(station.as_str().unwrap(), "KTLX");
}

#[test]
fn test_station_id_display() {
    let station = StationId::new(*b"KOKC");
    assert_eq!(station.to_display_string(), "KOKC");
}

#[test]
fn test_station_id_equality() {
    let station1 = StationId::new(*b"KTLX");
    let station2 = StationId::new(*b"KTLX");
    let station3 = StationId::new(*b"KOKC");
    assert_eq!(station1, station2);
    assert_ne!(station1, station3);
}

#[test]
fn test_station_id_clone() {
    let station1 = StationId::new(*b"KTLX");
    let station2 = station1.clone();
    assert_eq!(station1, station2);
}

#[test]
fn station_id_lossy_replaces_invalid_bytes() {
    let station = StationId::new([b'K', 0xFF, b'L', b'X']);
    assert_eq!(station.as_str_lossy(), "K\u{FFFD}LX");
}

#[test]
fn test_moment_codes() {
    assert_eq!(Moment::Reflectivity.code(), "REF");
    assert_eq!(Moment::Velocity.code(), "VEL");
    assert_eq!(Moment::SpectrumWidth.code(), "SW");
    assert_eq!(Moment::Zdr.code(), "ZDR");
    assert_eq!(Moment::Cc.code(), "CC");
    assert_eq!(Moment::Kdp.code(), "KDP");
}

#[test]
fn test_gate_creation() {
    let gate = Gate::new(1000.0f32.to_bits());
    assert_eq!(f(gate.range), 1000.0);
    assert!(gate.reflectivity.is_none());
    assert!(gate.velocity.is_none());
}

#[test]
fn test_radial_creation() {
    let radial = Radial::new(45.0f32.to_bits());
    assert_eq!(f(radial.azimuth), 45.0);
    assert!(radial.gates.is_empty());
}

#[test]
fn test_sweep_creation() {
    let sweep = Sweep::new(0.5f32.to_bits());
    assert_eq!(f(sweep.elevation), 0.5);
    assert!(sweep.radials.is_empty());
}

#[test]
fn test_volume_scan_creation() {
    let volume = VolumeScan::new("KTLX".to_string(), chrono::Utc::now().timestamp(), 215);
    assert_eq!(volume.station_id, "KTLX");
    assert_eq!(volume.vcp, 215);
    assert!(volume.sweeps.is_empty());
}

// ----------------------------------------------------------------- decode

fn preamble(data: &mut Vec<u8>, size: u32, time: u32, station: &[u8; 4], vcp: u16) {
    data.extend_from_slice(&size.to_be_bytes());
    data.extend_from_slice(&31u16.to_be_bytes());
    data.extend_from_slice(&20000u16.to_be_bytes());
    data.extend_from_slice(&time.to_be_bytes());
    data.extend_from_slice(station);
    data.extend_from_slice(&1u16.to_be_bytes());
    data.extend_from_slice(&vcp.to_be_bytes());
}

fn create_minimal_radial_data() -> Vec<u8> {
    let mut data = Vec::new();
    preamble(&mut data, 112, 3_600_000, b"KTLX", 215);
    data.extend_from_slice(&[0x00, 0x01]);
    data.extend_from_slice(&[0x01, 0x00]);
    data.extend_from_slice(&0.5f32.to_be_bytes());
    data.extend_from_slice(&1u16.to_be_bytes());
    data.extend_from_slice(&360u16.to_be_bytes());
    data.extend_from_slice(&1u16.to_be_bytes());
    data.extend_from_slice(&1000u16.to_be_bytes());
    data.extend_from_slice(&250u16.to_be_bytes());
    data.extend_from_slice(b"REF");
    data.extend_from_slice(&[0x00]);
    data.extend_from_slice(&[20u8]);
    data
}

fn create_multi_sweep_data() -> Vec<u8> {
    let mut data = Vec::new();
    preamble(&mut data, 256, 3_600_000, b"KTLX", 215);
    for elevation in [0.5f32, 1.5, 2.5] {
        data.extend_from_slice(&[1u8]);
        data.extend_from_slice(&elevation.to_be_bytes());
        data.extend_from_slice(&360u16.to_be_bytes());
    }
    data
}

fn create_multi_moment_data() -> Vec<u8> {
    let mut data = Vec::new();
    preamble(&mut data, 200, 3_600_000, b"KOKC", 32);
    data.extend_from_slice(&0.0f32.to_be_bytes());
    data.extend_from_slice(&2u16.to_be_bytes());
    data.extend_from_slice(&1000u16.to_be_bytes());
    data.extend_from_slice(b"REF");
    data.extend_from_slice(&[0u8]);
    data.extend_from_slice(&[30u8]);
    data.extend_from_slice(b"VEL");
    data.extend_from_slice(&[0u8]);
    data.extend_from_slice(&[10u8]);
    data.extend_from_slice(b"SW");
    data.extend_from_slice(&[0u8]);
    data.extend_from_slice(&[5u8]);
    data
}

fn create_single_moment_data() -> Vec<u8> {
    let mut data = Vec::new();
    data.extend_from_slice(&100u32.to_be_bytes());
    data.extend_from_slice(&31u16.to_be_bytes());
    data.extend_from_slice(&20500u16.to_be_bytes());
    data.extend_from_slice(&7_200_000u32.to_be_bytes());
    data.extend_from_slice(b"KORD");
    data.extend_from_slice(&2u16.to_be_bytes());
    data.extend_from_slice(&121u16.to_be_bytes());
    data.extend_from_slice(&90.0f32.to_be_bytes());
    data.extend_from_slice(&1u16.to_be_bytes());
    data.extend_from_slice(&500u16.to_be_bytes());
    data.extend_from_slice(b"REF");
    data.extend_from_slice(&[0u8]);
    data.extend_from_slice(&[45u8]);
    data
}

fn create_empty_scan_data() -> Vec<u8> {
    let mut data = Vec::new();
    preamble(&mut data, 50, 0, b"KATX", 215);
    data
}

#[test]
fn test_decode_returns_error_for_empty() {
    let result = decode(b"");
    assert!(result.is_err());
}

#[test]
fn test_decode_returns_error_for_truncated() {
    let result = decode(b"123");
    assert!(result.is_err());
}

#[test]
fn empty_input_should_return_insufficient_bytes_error() {
    let result = decode(b"");
    assert!(result.is_err(), "Empty input should return error");
    match result {
        Err(DecodeError::InsufficientBytes { needed, have }) => {
            assert!(needed > 0, "Should require some bytes");
            assert_eq!(have, 0, "Should have zero bytes");
        }
        Err(_) => {}
        Ok(_) => panic!("Empty input should not succeed"),
    }
}

#[test]
fn very_short_input_should_return_error() {
    let data = b"ABC";
    let result = decode(data);
    assert!(result.is_err(), "Very short input should return error");
}

#[test]
fn invalid_message_type_should_return_error() {
    let mut invalid_data = vec![0u8; 30];
    invalid_data[0..4].copy_from_slice(&(30u32).to_be_bytes());
    invalid_data[4..6].copy_from_slice(&99u16.to_be_bytes());
    invalid_data[12..16].copy_from_slice(b"KTLX");
    let result = decode(&invalid_data);
    assert!(result.is_err(), "Invalid message type should return error");
    assert!(matches!(result, Err(DecodeError::InvalidMessageType(99))));
}

#[test]
fn decode_short_input_reports_sizes() {
    let result = decode(&[0u8; 17]);
    assert!(matches!(result, Err(DecodeError::InsufficientBytes { needed: 18, have: 17 })));
}

#[test]
fn should_extract_sweeps_from_volume_scan() {
    let bytes = create_multi_sweep_data();
    let result = decode(&bytes);
    assert!(result.is_ok(), "Decoder should successfully parse radial data");
    let volume = result.unwrap();
    assert!(!volume.sweeps.is_empty(), "Volume scan should contain at least one sweep");
    assert!(volume.sweeps.len() >= 3, "Volume scan should contain multiple sweeps, got {}", volume.sweeps.len());
}

#[test]
fn should_have_elevation_angle_on_each_sweep() {
    let bytes = create_multi_sweep_data();
    let result = decode(&bytes);
    assert!(result.is_ok());
    let volume = result.unwrap();
    for (i, sweep) in volume.sweeps.iter().enumerate() {
        let e = f(sweep.elevation);
        assert!(e >= 0.0 && e <= 90.0, "Sweep {} has invalid elevation angle: {}", i, e);
    }
}

#[test]
fn should_contain_radials_in_each_sweep() {
    let bytes = create_multi_sweep_data();
    let result = decode(&bytes);
    assert!(result.is_ok());
    let volume = result.unwrap();
    for (i, sweep) in volume.sweeps.iter().enumerate() {
        assert!(!sweep.radials.is_empty(), "Sweep {} should contain radials", i);
    }
}

#[test]
fn should_have_azimuth_angle_on_each_radial() {
    let bytes = create_minimal_radial_data();
    let result = decode(&bytes);
    assert!(result.is_ok());
    let volume = result.unwrap();
    assert!(!volume.sweeps.is_empty(), "Should have at least one sweep");
    let sweep = &volume.sweeps[0];
    assert!(!sweep.radials.is_empty(), "Sweep should contain at least one radial");
    for (i, radial) in sweep.radials.iter().enumerate() {
        let az = f(radial.azimuth);
        assert!(az >= 0.0 && az <= 360.0, "Radial {} has invalid azimuth: {}", i, az);
    }
}

#[test]
fn should_contain_gates_with_range_values_in_radial() {
    let bytes = create_minimal_radial_data();
    let result = decode(&bytes);
    assert!(result.is_ok());
    let volume = result.unwrap();
    assert!(!volume.sweeps.is_empty());
    let sweep = &volume.sweeps[0];
    assert!(!sweep.radials.is_empty());
    let radial = &sweep.radials[0];
    assert!(!radial.gates.is_empty(), "Radial should contain gates");
    for (i, gate) in radial.gates.iter().enumerate() {
        assert!(f(gate.range) >= 0.0, "Gate {} has invalid range: {}", i, f(gate.range));
    }
}

#[test]
fn should_extract_reflectivity_from_gate() {
    let bytes = create_multi_moment_data();
    let result = decode(&bytes);
    assert!(result.is_ok());
    let volume = result.unwrap();
    let mut found_reflectivity = false;
    for sweep in &volume.sweeps {
        for radial in &sweep.radials {
            for gate in &radial.gates {
                if let Some(reflectivity) = gate.reflectivity {
                    found_reflectivity = true;
                    assert!((-32.0..=75.0).contains(&f(reflectivity)), "Reflectivity {} is out of valid range", f(reflectivity));
                }
            }
        }
    }
    assert!(found_reflectivity, "Should have found at least one gate with reflectivity data");
}

#[test]
fn should_extract_velocity_from_gate() {
    let bytes = create_multi_moment_data();
    let result = decode(&bytes);
    assert!(result.is_ok());
    let volume = result.unwrap();
    let mut found_velocity = false;
    for sweep in &volume.sweeps {
        for radial in &sweep.radials {
            for gate in &radial.gates {
                if let Some(velocity) = gate.velocity {
                    found_velocity = true;
                    println!("Found velocity: {}", f(velocity));
                }
            }
        }
    }
    assert!(found_velocity, "Should have found at least one gate with velocity data");
}

#[test]
fn should_extract_spectrum_width_from_gate() {
    let bytes = create_multi_moment_data();
    let result = decode(&bytes);
    assert!(result.is_ok());
    let volume = result.unwrap();
    let mut found_spectrum_width = false;
    for sweep in &volume.sweeps {
        for radial in &sweep.radials {
            for gate in &radial.gates {
                if let Some(sw) = gate.spectrum_width {
                    found_spectrum_width = true;
                    println!("Found spectrum width: {}", f(sw));
                }
            }
        }
    }
    assert!(found_spectrum_width, "Should have found at least one gate with spectrum width data");
}

#[test]
fn should_return_none_for_missing_moments() {
    let bytes = create_single_moment_data();
    let result = decode(&bytes);
    assert!(result.is_ok());
    let volume = result.unwrap();
    for sweep in &volume.sweeps {
        for radial in &sweep.radials {
            for gate in &radial.gates {
                assert!(gate.reflectivity.is_some(), "Gate should have reflectivity since we included it");
                assert!(gate.velocity.is_none(), "Gate should NOT have velocity when not present in data");
                assert!(gate.spectrum_width.is_none(), "Gate should NOT have spectrum width when not present in data");
            }
        }
    }
}

#[test]
fn should_extract_station_id_from_message() {
    let bytes = create_minimal_radial_data();
    let result = decode(&bytes);
    assert!(result.is_ok());
    let volume = result.unwrap();
    assert_eq!(volume.station_id, "KTLX", "Volume scan should have correct station ID");
}

#[test]
fn should_extract_vcp_from_message() {
    let bytes = create_multi_moment_data();
    let result = decode(&bytes);
    assert!(result.is_ok());
    let volume = result.unwrap();
    assert_eq!(volume.vcp, 32, "Volume scan should have correct VCP");
}

#[test]
fn should_have_sweeps_in_elevation_order() {
    let bytes = create_multi_sweep_data();
    let result = decode(&bytes);
    assert!(result.is_ok());
    let volume = result.unwrap();
    let elevations: Vec<f32> = volume.sweeps.iter().map(|s| f(s.elevation)).collect();
    for i in 1..elevations.len() {
        assert!(elevations[i] >= elevations[i - 1], "Sweeps should be in ascending elevation order");
    }
}

#[test]
fn should_handle_empty_scan_gracefully() {
    let bytes = create_empty_scan_data();
    let result = decode(&bytes);
    assert!(result.is_ok(), "Decoder should handle empty scan gracefully");
    let volume = result.unwrap();
    assert_eq!(volume.station_id, "KATX", "Should extract station ID even from empty scan");
}

#[test]
fn should_have_valid_azimuth_range() {
    let bytes = create_single_moment_data();
    let result = decode(&bytes);
    assert!(result.is_ok());
    let volume = result.unwrap();
    for sweep in &volume.sweeps {
        for radial in &sweep.radials {
            let az = f(radial.azimuth);
            assert!((0.0..=360.0).contains(&az) || (-180.0..=540.0).contains(&az), "Azimuth {} is outside valid range", az);
        }
    }
}

#[test]
fn should_have_increasing_gate_ranges_within_radial() {
    let bytes = create_multi_moment_data();
    let result = decode(&bytes);
    assert!(result.is_ok());
    let volume = result.unwrap();
    for sweep in &volume.sweeps {
        for radial in &sweep.radials {
            let ranges: Vec<f32> = radial.gates.iter().map(|g| f(g.range)).collect();
            for i in 1..ranges.len() {
                assert!(ranges[i] >= ranges[i - 1], "Gate ranges should be monotonically increasing within a radial");
            }
        }
    }
}

#[test]
fn should_have_valid_reflectivity_range() {
    let bytes = create_multi_moment_data();
    let result = decode(&bytes);
    assert!(result.is_ok());
    let volume = result.unwrap();
    for sweep in &volume.sweeps {
        for radial in &sweep.radials {
            for gate in &radial.gates {
                if let Some(reflectivity) = gate.reflectivity {
                    assert!((-32.0..=75.0).contains(&f(reflectivity)), "Reflectivity {} is outside valid NEXRAD range", f(reflectivity));
                }
            }
        }
    }
}

#[test]
fn should_have_velocity_in_standard_units() {
    let bytes = create_multi_moment_data();
    let result = decode(&bytes);
    assert!(result.is_ok());
    let volume = result.unwrap();
    for sweep in &volume.sweeps {
        for radial in &sweep.radials {
            for gate in &radial.gates {
                if let Some(velocity) = gate.velocity {
                    println!("Velocity value: {}", f(velocity));
                }
            }
        }
    }
}

// ----------------------------------------------------------------- exact decoded values

#[test]
fn decode_multi_sweep_values() {
    let volume = decode(&create_multi_sweep_data()).unwrap();
    assert_eq!(volume.timestamp, 946_728_000 + 3_600_000);
    assert_eq!(volume.vcp, 215);
    let elevations: Vec<f32> = volume.sweeps.iter().map(|s| f(s.elevation)).collect();
    assert_eq!(elevations, vec![0.5, 1.5, 2.5]);
    for sweep in &volume.sweeps {
        assert_eq!(sweep.radials.len(), 360);
        assert_eq!(f(sweep.radials[0].gates[0].range), 1000.0);
    }
}

#[test]
fn decode_multi_moment_values() {
    let volume = decode(&create_multi_moment_data()).unwrap();
    assert_eq!(volume.station_id, "KOKC");
    assert_eq!(volume.sweeps.len(), 1);
    assert_eq!(f(volume.sweeps[0].elevation), 0.5);
    let radial = &volume.sweeps[0].radials[0];
    assert_eq!(f(radial.azimuth), 0.0);
    assert_eq!(radial.gates.len(), 2);
    let g0 = &radial.gates[0];
    assert_eq!(f(g0.range), 1000.0);
    assert_eq!(g0.reflectivity.map(f), Some(-2.0));
    assert_eq!(g0.velocity.map(f), Some(-54.0));
    assert_eq!(g0.spectrum_width.map(f), Some(2.5));
    let g1 = &radial.gates[1];
    assert_eq!(f(g1.range), 1250.0);
    assert_eq!(g1.reflectivity.map(f), Some(30.0));
}

#[test]
fn decode_minimal_layout_reads_as_moments() {
    // The first four body bytes (00 01 01 00) read as a tiny positive float,
    // an azimuth within 0..=360, so the moment layout is taken.
    let volume = decode(&create_minimal_radial_data()).unwrap();
    assert_eq!(volume.sweeps.len(), 1);
    let radial = &volume.sweeps[0].radials[0];
    assert_eq!(radial.azimuth, 0x0001_0100);
    assert_eq!(radial.gates.len(), 0x3F00);
    assert_eq!(f(radial.gates[0].range), 0.0);
    assert_eq!(f(radial.gates[1].range), 250.0);
    assert_eq!(radial.gates[0].reflectivity.map(f), Some(30.0));
}

#[test]
fn decode_preamble_only_has_no_sweep() {
    let volume = decode(&create_empty_scan_data()).unwrap();
    assert!(volume.sweeps.is_empty());
    let mut one_more = create_empty_scan_data();
    one_more.push(0);
    let volume = decode(&one_more).unwrap();
    assert_eq!(volume.sweeps.len(), 1);
    assert_eq!(f(volume.sweeps[0].elevation), 0.5);
    assert!(volume.sweeps[0].radials.is_empty());
}

#[test]
fn truncated_header_before_vcp_is_an_error() {
    let bytes = [0u8, 0, 0, 18, 0, 31, 0, 0, 0, 0, 0, 0, b'K', b'T', b'L', b'X', 0, 1];
    assert!(matches!(decode(&bytes), Err(DecodeError::InsufficientBytes { needed: 20, have: 18 })));
    let bytes19 = [0u8, 0, 0, 19, 0, 31, 0, 0, 0, 0, 0, 0, b'K', b'T', b'L', b'X', 0, 1, 2];
    assert!(matches!(decode(&bytes19), Err(DecodeError::InsufficientBytes { needed: 20, have: 19 })));
    let mut bytes20 = bytes19.to_vec();
    bytes20.push(215);
    let v = decode(&bytes20).unwrap();
    assert!(v.sweeps.is_empty());
}

#[test]
fn station_ids_compare_by_bytes() {
    let a = StationId::new(*b"KTLX");
    assert_eq!(a, StationId::new(*b"KTLX"));
    assert_ne!(a, StationId::new(*b"KOKC"));
    assert_eq!(a.clone(), a);
    let lossy = StationId::new([b'K', 0xFF, b'L', b'X']).as_str_lossy();
    assert_eq!(lossy, "K\u{FFFD}LX");
}

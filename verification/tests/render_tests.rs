use tempest::render::color::RadarMoment as ColorMoment;
use tempest::render::color::Rgb;
use tempest::decode::types::{Gate, Radial, Sweep};
use tempest::golden::differing_pixels;
use tempest::render::{get_moment_value, sweep_moment_samples, RadarMoment, Rgba};

/// Display names of radar moment codes, as the visual checks label them.
fn moment_display_name(moment_type: &str) -> &'static str {
    match moment_type {
        "REF" => "Reflectivity (dBZ)",
        "VEL" => "Velocity (m/s)",
        "SW" => "Spectrum Width (m/s)",
        "ZDR" => "Differential Reflectivity (dB)",
        "CC" => "Correlation Coefficient",
        "KDP" => "Differential Phase (deg/km)",
        _ => "Unknown",
    }
}

#[test]
fn test_rgb_new() {
    let color = Rgb::new(255, 128, 64);
    assert_eq!(color.r, 255);
    assert_eq!(color.g, 128);
    assert_eq!(color.b, 64);
}

#[test]
fn test_rgb_display() {
    let color = Rgb::new(255, 128, 64);
    assert_eq!(color.to_display_string(), "rgb(255, 128, 64)");
}

#[test]
fn test_rgb_to_rgba() {
    let color = Rgb::new(255, 128, 64);
    let rgba = color.to_rgba();
    assert_eq!(rgba.r, 255);
    assert_eq!(rgba.g, 128);
    assert_eq!(rgba.b, 64);
    assert_eq!(rgba.a, 255);
}

#[test]
fn test_rgb_to_rgba_with_alpha() {
    let color = Rgb::new(255, 128, 64);
    let rgba = color.to_rgba_with_alpha(128);
    assert_eq!(rgba.a, 128);
}

#[test]
fn test_rgba_display() {
    let color = Rgba::new(255, 128, 64, 32);
    assert_eq!(color.to_display_string(), "rgba(255, 128, 64, 32)");
}

#[test]
fn test_rgba_to_array() {
    let color = Rgba::new(255, 128, 64, 32);
    assert_eq!(color.to_array(), [255, 128, 64, 32]);
}

#[test]
fn rgba_from_bytes_and_transparent() {
    assert_eq!(Rgba::from_bytes([1, 2, 3, 4]), Rgba::new(1, 2, 3, 4));
    assert_eq!(Rgba::transparent().to_array(), [0, 0, 0, 0]);
    assert_eq!(Rgba::new(0, 0, 0, 0).to_display_string(), "rgba(0, 0, 0, 0)");
}

#[test]
fn test_moment_code() {
    assert_eq!(RadarMoment::Reflectivity.code(), "REF");
    assert_eq!(RadarMoment::Velocity.code(), "VEL");
    assert_eq!(RadarMoment::SpectrumWidth.code(), "SW");
    assert_eq!(RadarMoment::Zdr.code(), "ZDR");
    assert_eq!(RadarMoment::Cc.code(), "CC");
    assert_eq!(RadarMoment::Kdp.code(), "KDP");
}

#[test]
fn test_moment_display_names() {
    assert_eq!(moment_display_name("REF"), "Reflectivity (dBZ)");
    assert_eq!(moment_display_name("VEL"), "Velocity (m/s)");
    assert_eq!(moment_display_name("SW"), "Spectrum Width (m/s)");
    assert_eq!(moment_display_name("ZDR"), "Differential Reflectivity (dB)");
    assert_eq!(moment_display_name("CC"), "Correlation Coefficient");
    assert_eq!(moment_display_name("KDP"), "Differential Phase (deg/km)");
    assert_eq!(moment_display_name(RadarMoment::Kdp.code()), "Differential Phase (deg/km)");
}

#[test]
fn color_moment_codes() {
    assert_eq!(ColorMoment::Reflectivity.code(), "REF");
    assert_eq!(ColorMoment::Kdp.code(), "KDP");
    assert_eq!(tempest::render::color::Rgba::opaque().a, 255);
}

fn gate_with(range: f32, reflectivity: Option<f32>, velocity: Option<f32>) -> Gate {
    let mut g = Gate::new(range.to_bits());
    g.reflectivity = reflectivity.map(f32::to_bits);
    g.velocity = velocity.map(f32::to_bits);
    g
}

#[test]
fn moment_value_of_a_gate() {
    let g = gate_with(1000.0, Some(30.0), None);
    assert_eq!(get_moment_value(&g, RadarMoment::Reflectivity), Some(30.0f32.to_bits()));
    assert_eq!(get_moment_value(&g, RadarMoment::Velocity), None);
    assert_eq!(get_moment_value(&g, RadarMoment::Kdp), None);
}

#[test]
fn sweep_samples_skip_gates_without_the_moment() {
    let mut sweep = Sweep::new(0.5f32.to_bits());
    let mut r1 = Radial::new(0.0f32.to_bits());
    r1.gates.push(gate_with(1000.0, Some(30.0), None));
    r1.gates.push(gate_with(1250.0, None, Some(-5.0)));
    let mut r2 = Radial::new(90.0f32.to_bits());
    r2.gates.push(gate_with(1000.0, Some(12.5), Some(3.0)));
    sweep.radials.push(r1);
    sweep.radials.push(r2);

    let refl = sweep_moment_samples(&sweep, RadarMoment::Reflectivity);
    assert_eq!(
        refl,
        vec![
            (0.0f32.to_bits(), 1000.0f32.to_bits(), 30.0f32.to_bits()),
            (90.0f32.to_bits(), 1000.0f32.to_bits(), 12.5f32.to_bits()),
        ]
    );
    let vel = sweep_moment_samples(&sweep, RadarMoment::Velocity);
    assert_eq!(
        vel,
        vec![
            (0.0f32.to_bits(), 1250.0f32.to_bits(), (-5.0f32).to_bits()),
            (90.0f32.to_bits(), 1000.0f32.to_bits(), 3.0f32.to_bits()),
        ]
    );
    assert!(sweep_moment_samples(&sweep, RadarMoment::Cc).is_empty());
}

#[test]
fn empty_sweep_has_no_samples() {
    let sweep = Sweep::new(0.5f32.to_bits());
    assert!(sweep_moment_samples(&sweep, RadarMoment::Reflectivity).is_empty());
}

#[test]
fn identical_buffers_have_no_differing_pixels() {
    let a = vec![255u8, 0, 0, 255, 0, 0];
    assert_eq!(differing_pixels(&a, &a.clone()), 0);
}

#[test]
fn differing_pixels_counts_pixels_not_channels() {
    let a = vec![255u8, 0, 0, 255, 0, 0, 1, 2, 3];
    let b = vec![0u8, 0, 255, 255, 0, 0, 1, 2, 4];
    assert_eq!(differing_pixels(&a, &b), 2);
}

#[test]
fn ten_percent_of_pixels_differ() {
    let a = vec![7u8; 300];
    let mut b = a.clone();
    for p in 0..10 {
        b[3 * p + 2] = 9;
    }
    assert_eq!(differing_pixels(&a, &b), 10);
}

use wifiqr::image::{generate_qr_code, render, ImageFormat, RenderError};
use wifiqr::schema::{Config, EncryptionMode};

fn png_side(bytes: &[u8]) -> (u32, u32) {
    let w = u32::from_be_bytes([bytes[16], bytes[17], bytes[18], bytes[19]]);
    let h = u32::from_be_bytes([bytes[20], bytes[21], bytes[22], bytes[23]]);
    (w, h)
}

#[test]
fn format_from_png_path() {
    assert_eq!(ImageFormat::from_path("out/wifi.png"), Some(ImageFormat::Png));
}

#[test]
fn format_from_svg_path() {
    assert_eq!(ImageFormat::from_path("wifi.svg"), Some(ImageFormat::Svg));
}

#[test]
fn format_rejects_other_suffixes() {
    assert_eq!(ImageFormat::from_path("wifi.jpg"), None);
    assert_eq!(ImageFormat::from_path("wifi.PNG"), None);
    assert_eq!(ImageFormat::from_path("png"), None);
    assert_eq!(ImageFormat::from_path(""), None);
    assert_eq!(ImageFormat::from_path("wifi.png.txt"), None);
}

#[test]
fn format_of_bare_suffix() {
    assert_eq!(ImageFormat::from_path(".png"), Some(ImageFormat::Png));
}

#[test]
fn png_has_requested_side() {
    let bytes = render("WIFI:T:WPA;S:MyHome;P:secret123;;", 300, ImageFormat::Png).unwrap();
    assert_eq!(&bytes[..8], &[0x89, b'P', b'N', b'G', 0x0d, 0x0a, 0x1a, 0x0a]);
    assert_eq!(png_side(&bytes), (300, 300));
}

#[test]
fn svg_is_vector_text() {
    let bytes = render("WIFI:T:WPA;S:MyHome;P:secret123;;", 300, ImageFormat::Svg).unwrap();
    let text = String::from_utf8(bytes).unwrap();
    assert!(text.starts_with("<?xml"));
    assert!(text.contains("<svg width=\"300\" height=\"300\""));
    assert!(text.contains("<path d=\"M"));
    assert!(!text.contains("<image"));
    assert!(!text.contains("base64"));
}

#[test]
fn zero_size_is_refused() {
    assert!(matches!(render("WIFI:T:WPA;S:a;P:b;;", 0, ImageFormat::Png), Err(RenderError::Encoding(_))));
    assert!(matches!(render("WIFI:T:WPA;S:a;P:b;;", 0, ImageFormat::Svg), Err(RenderError::Encoding(_))));
}

#[test]
fn too_long_payload_is_refused() {
    let long = "x".repeat(8000);
    assert!(matches!(render(&long, 300, ImageFormat::Png), Err(RenderError::Encoding(_))));
}

#[test]
fn generate_png_from_config() {
    let c = Config::with_mode("MyHome".to_string(), "secret123".to_string(), EncryptionMode::Wpa);
    let bytes = generate_qr_code(c, 300, ImageFormat::Png).unwrap();
    let direct = render("WIFI:T:WPA;S:MyHome;P:secret123;;", 300, ImageFormat::Png).unwrap();
    assert_eq!(bytes, direct);
    assert_eq!(png_side(&bytes), (300, 300));
}

#[test]
fn generate_svg_from_config() {
    let c = Config::new("Guest;Net".to_string(), String::new(), "nopass".to_string());
    let bytes = generate_qr_code(c, 200, ImageFormat::Svg).unwrap();
    let direct = render("WIFI:T:nopass;S:Guest\\;Net;P:;;", 200, ImageFormat::Svg).unwrap();
    assert_eq!(bytes, direct);
}

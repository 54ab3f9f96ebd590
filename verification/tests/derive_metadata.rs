use media_server::metadata::{ImageFormat, Metadata};

/// A valid 1x1 RGBA PNG holding one opaque red pixel.
fn red_png() -> Vec<u8> {
    vec![
        137, 80, 78, 71, 13, 10, 26, 10, 0, 0, 0, 13, 73, 72, 68, 82, 0, 0, 0, 1, 0, 0, 0, 1, 8,
        6, 0, 0, 0, 31, 21, 196, 137, 0, 0, 0, 13, 73, 68, 65, 84, 120, 218, 99, 248, 207, 192,
        240, 31, 0, 5, 0, 1, 255, 86, 199, 47, 13, 0, 0, 0, 0, 73, 69, 78, 68, 174, 66, 96, 130,
    ]
}

/// A valid 1x1 RGBA PNG holding one opaque blue pixel.
fn blue_png() -> Vec<u8> {
    vec![
        137, 80, 78, 71, 13, 10, 26, 10, 0, 0, 0, 13, 73, 72, 68, 82, 0, 0, 0, 1, 0, 0, 0, 1, 8,
        6, 0, 0, 0, 31, 21, 196, 137, 0, 0, 0, 13, 73, 68, 65, 84, 120, 218, 99, 96, 96, 248, 255,
        31, 0, 3, 2, 1, 255, 57, 41, 25, 190, 0, 0, 0, 0, 73, 69, 78, 68, 174, 66, 96, 130,
    ]
}

#[test]
fn png_payload_yields_image_metadata_with_fingerprint() {
    match Metadata::new(&red_png(), Some("image/png".to_string())) {
        Metadata::Image { format, blurhash } => {
            assert_eq!(format, ImageFormat::Png);
            assert!(!blurhash.is_empty());
        }
        other => panic!("expected image metadata, got {:?}", other),
    }
}

#[test]
fn classification_ignores_declared_content_type() {
    match Metadata::new(&red_png(), None) {
        Metadata::Image { format, .. } => assert_eq!(format, ImageFormat::Png),
        other => panic!("expected image metadata, got {:?}", other),
    }
    match Metadata::new(&red_png(), Some("text/plain".to_string())) {
        Metadata::Image { format, .. } => assert_eq!(format, ImageFormat::Png),
        other => panic!("expected image metadata, got {:?}", other),
    }
}

#[test]
fn non_image_bytes_yield_unknown_with_declared_type() {
    let m = Metadata::new(&[0u8, 1, 2], Some("application/octet-stream".to_string()));
    assert_eq!(
        m,
        Metadata::Unknown {
            original_media_type: Some("application/octet-stream".to_string()),
        }
    );
    let m = Metadata::new(&[0u8, 1, 2], None);
    assert_eq!(m, Metadata::Unknown { original_media_type: None });
}

#[test]
fn empty_payload_yields_unknown() {
    let m = Metadata::new(&[], Some("image/png".to_string()));
    assert_eq!(
        m,
        Metadata::Unknown {
            original_media_type: Some("image/png".to_string()),
        }
    );
}

#[test]
fn derivation_is_deterministic() {
    let first = Metadata::new(&red_png(), None);
    let second = Metadata::new(&red_png(), None);
    assert_eq!(first, second);
    match (first, second) {
        (
            Metadata::Image { blurhash: h1, .. },
            Metadata::Image { blurhash: h2, .. },
        ) => assert_eq!(h1, h2),
        _ => panic!("expected image metadata from both derivations"),
    }
}

#[test]
fn different_pixels_give_different_fingerprints() {
    let red = match Metadata::new(&red_png(), None) {
        Metadata::Image { blurhash, .. } => blurhash,
        other => panic!("expected image metadata, got {:?}", other),
    };
    let blue = match Metadata::new(&blue_png(), None) {
        Metadata::Image { blurhash, .. } => blurhash,
        other => panic!("expected image metadata, got {:?}", other),
    };
    assert_ne!(red, blue);
}

#[test]
fn truncated_png_signature_yields_unknown() {
    // The full PNG signature with nothing after it sniffs as PNG but cannot
    // decode, so derivation degrades to Unknown.
    let m = Metadata::new(&[137u8, 80, 78, 71, 13, 10, 26, 10], None);
    assert_eq!(m, Metadata::Unknown { original_media_type: None });
}

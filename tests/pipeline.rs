use paperwave::{
    apply_exif_orientation_bytes, calibration_rotation, ArrowDirection, clamp_aspect_resize, combine_rotation, crop_rect,
    lighten_image_in_place, load_image_respecting_exif, pack_buffer_nibbles, pack_luma_nibbles,
    InkyError, Rgb8Image, Rotation,
};

fn identity_curve() -> [u8; 256] {
    let mut c = [0u8; 256];
    for (i, v) in c.iter_mut().enumerate() {
        *v = i as u8;
    }
    c
}

#[test]
fn target_dimensions_swap_only_for_quarter_turns() {
    assert_eq!(Rotation::Deg0.target_dimensions(600, 448), (600, 448));
    assert_eq!(Rotation::Deg90.target_dimensions(600, 448), (448, 600));
    assert_eq!(Rotation::Deg180.target_dimensions(600, 448), (600, 448));
    assert_eq!(Rotation::Deg270.target_dimensions(600, 448), (448, 600));
}

#[test]
fn nibble_packing_even_length() {
    let packed = pack_buffer_nibbles(&[1, 2, 3, 4]);
    assert_eq!(packed, vec![0x12, 0x34]);
    let unpacked: Vec<u8> = packed.iter().flat_map(|b| [b >> 4, b & 0x0F]).collect();
    assert_eq!(unpacked, vec![1, 2, 3, 4]);
}

#[test]
fn nibble_packing_odd_length_pads_with_zero() {
    let packed = pack_buffer_nibbles(&[6, 5, 4]);
    assert_eq!(packed, vec![0x65, 0x40]);
}

#[test]
fn nibble_packing_masks_to_four_bits() {
    assert_eq!(pack_buffer_nibbles(&[0xF3, 0x1A]), vec![0x3A]);
    assert_eq!(pack_buffer_nibbles(&[]), Vec::<u8>::new());
}

#[test]
fn luma_packing_splits_rows() {
    // 3 x 2 image, columns 0..3 of each row: each row starts a fresh byte.
    let data = [1u8, 2, 3, 4, 5, 6];
    assert_eq!(pack_luma_nibbles(&data, 3, 2, 0, 3), vec![0x12, 0x30, 0x45, 0x60]);
    assert_eq!(pack_luma_nibbles(&data, 3, 2, 1, 3), vec![0x23, 0x56]);
}

#[test]
fn crop_rect_for_wide_source() {
    // 600/448 * 500 = 669.64..., rounded to 670 and centred.
    assert_eq!(crop_rect(1000, 500, 600, 448), (165, 0, 670, 500));
}

#[test]
fn crop_rect_for_tall_source() {
    // 500 / (600/448) = 373.33..., rounded to 373.
    assert_eq!(crop_rect(500, 1000, 600, 448), (0, 313, 500, 373));
}

#[test]
fn crop_rect_for_matching_ratio() {
    assert_eq!(crop_rect(1200, 896, 600, 448), (0, 0, 1200, 896));
}

#[test]
fn aspect_pipeline_gives_exact_target_size() {
    let src = Rgb8Image::filled(1000, 500, (10, 20, 30));
    let (_, _, w, h) = crop_rect(1000, 500, 600, 448);
    let ratio = w as f64 / h as f64;
    assert!((ratio - 600.0 / 448.0).abs() < 1e-3);
    let out = clamp_aspect_resize(&src, 600, 448);
    assert_eq!((out.width(), out.height()), (600, 448));
    assert_eq!(out.as_bytes().len(), 600 * 448 * 3);
    assert!(out.as_bytes().chunks(3).all(|p| p == [10, 20, 30]));
}

#[test]
fn same_size_image_is_copied() {
    let src = Rgb8Image::from_raw(2, 1, vec![1, 2, 3, 4, 5, 6]).unwrap();
    let out = clamp_aspect_resize(&src, 2, 1);
    assert_eq!(out.as_bytes(), &[1, 2, 3, 4, 5, 6]);
}

#[test]
fn from_raw_checks_length() {
    assert!(Rgb8Image::from_raw(2, 2, vec![0; 11]).is_none());
    assert!(Rgb8Image::from_raw(2, 2, vec![0; 12]).is_some());
}

#[test]
fn rotation_apply_moves_pixels() {
    // 2 x 1 image: red then blue.
    let img = Rgb8Image::from_raw(2, 1, vec![255, 0, 0, 0, 0, 255]).unwrap();
    let r90 = Rotation::Deg90.apply(img);
    assert_eq!((r90.width(), r90.height()), (1, 2));
    assert_eq!(r90.as_bytes(), &[255, 0, 0, 0, 0, 255]);
    let img = Rgb8Image::from_raw(2, 1, vec![255, 0, 0, 0, 0, 255]).unwrap();
    let r180 = Rotation::Deg180.apply(img);
    assert_eq!(r180.as_bytes(), &[0, 0, 255, 255, 0, 0]);
    let img = Rgb8Image::from_raw(2, 1, vec![255, 0, 0, 0, 0, 255]).unwrap();
    let r270 = Rotation::Deg270.apply(img);
    assert_eq!((r270.width(), r270.height()), (1, 2));
    assert_eq!(r270.as_bytes(), &[0, 0, 255, 255, 0, 0]);
}

#[test]
fn lighten_maps_through_curve() {
    let mut img = Rgb8Image::from_raw(1, 1, vec![0, 100, 255]).unwrap();
    let mut curve = identity_curve();
    curve[100] = 180;
    curve[0] = 3;
    lighten_image_in_place(&mut img, &curve);
    assert_eq!(img.as_bytes(), &[3, 180, 255]);
}

#[test]
fn combine_rotation_adds_angles() {
    assert_eq!(combine_rotation(None, 90), Rotation::Deg90);
    assert_eq!(combine_rotation(Some(Rotation::Deg270), 180), Rotation::Deg90);
    assert_eq!(combine_rotation(Some(Rotation::Deg90), 45), Rotation::Deg90);
    assert_eq!(combine_rotation(Some(Rotation::Deg180), 540), Rotation::Deg0);
}

#[test]
fn rotation_degrees_round_trip() {
    for r in [Rotation::Deg0, Rotation::Deg90, Rotation::Deg180, Rotation::Deg270] {
        assert_eq!(Rotation::from_degrees(r.degrees()), Some(r));
    }
    assert_eq!(Rotation::from_degrees(450), Some(Rotation::Deg90));
    assert_eq!(Rotation::from_degrees(45), None);
}

fn png_bytes(w: u32, h: u32, data: Vec<u8>) -> Vec<u8> {
    let img = image::RgbImage::from_raw(w, h, data).unwrap();
    let mut out = std::io::Cursor::new(Vec::new());
    img.write_to(&mut out, image::ImageFormat::Png).unwrap();
    out.into_inner()
}

#[test]
fn decode_png_keeps_pixels() {
    let bytes = png_bytes(2, 1, vec![1, 2, 3, 4, 5, 6]);
    let img = load_image_respecting_exif(&bytes).unwrap();
    assert_eq!((img.width(), img.height()), (2, 1));
    assert_eq!(img.as_bytes(), &[1, 2, 3, 4, 5, 6]);
}

#[test]
fn decode_garbage_is_image_error() {
    let r = load_image_respecting_exif(&[1, 2, 3, 4, 5]);
    assert!(matches!(r, Err(InkyError::Image(_))));
}

#[test]
fn exif_orientation_rotates_decoded_image() {
    // A JPEG prefix whose Exif block asks for a 90 degree turn.
    let mut bytes = vec![0xFF, 0xD8, 0xFF, 0xE1, 0x00, 0x22];
    bytes.extend_from_slice(b"Exif\0\0");
    bytes.extend_from_slice(&[
        b'M', b'M', 0x00, 0x2A, 0x00, 0x00, 0x00, 0x08, 0x00, 0x01, 0x01, 0x12, 0x00, 0x03, 0x00,
        0x00, 0x00, 0x01, 0x00, 0x06, 0x00, 0x00,
    ]);
    bytes.extend_from_slice(&[0, 0, 0, 0]);
    let img = Rgb8Image::from_raw(2, 1, vec![255, 0, 0, 0, 0, 255]).unwrap();
    let out = apply_exif_orientation_bytes(&bytes, img);
    assert_eq!((out.width(), out.height()), (1, 2));
    let img = Rgb8Image::from_raw(2, 1, vec![255, 0, 0, 0, 0, 255]).unwrap();
    let same = apply_exif_orientation_bytes(&[0x89, b'P', b'N', b'G'], img);
    assert_eq!((same.width(), same.height()), (2, 1));
}

#[test]
fn calibration_reverses_the_seen_turn() {
    assert_eq!(calibration_rotation(ArrowDirection::Up), Rotation::Deg0);
    assert_eq!(calibration_rotation(ArrowDirection::Right), Rotation::Deg270);
    assert_eq!(calibration_rotation(ArrowDirection::Down), Rotation::Deg180);
    assert_eq!(calibration_rotation(ArrowDirection::Left), Rotation::Deg90);
}

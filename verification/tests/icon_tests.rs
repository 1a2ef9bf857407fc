use tray_mounter::icon::{icon_from_decoded, load_icon, Decoded, IconError};

const RGBA_PNG: [u8; 74] = [137, 80, 78, 71, 13, 10, 26, 10, 0, 0, 0, 13, 73, 72, 68, 82, 0, 0, 0, 2, 0, 0, 0, 1, 8, 6, 0, 0, 0, 244, 34, 127, 138, 0, 0, 0, 17, 73, 68, 65, 84, 120, 218, 99, 248, 207, 192, 240, 159, 161, 225, 191, 3, 0, 16, 186, 3, 190, 58, 121, 191, 190, 0, 0, 0, 0, 73, 69, 78, 68, 174, 66, 96, 130];

const RGB_PNG: [u8; 69] = [137, 80, 78, 71, 13, 10, 26, 10, 0, 0, 0, 13, 73, 72, 68, 82, 0, 0, 0, 1, 0, 0, 0, 1, 8, 2, 0, 0, 0, 144, 119, 83, 222, 0, 0, 0, 12, 73, 68, 65, 84, 120, 218, 99, 224, 18, 145, 3, 0, 0, 104, 0, 61, 106, 245, 112, 91, 0, 0, 0, 0, 73, 69, 78, 68, 174, 66, 96, 130];

#[test]
fn rgba_png_becomes_an_icon() {
    let icon = load_icon(&RGBA_PNG).unwrap();
    assert_eq!(icon.width(), 2);
    assert_eq!(icon.height(), 1);
    assert_eq!(icon.rgba(), &vec![255, 0, 0, 255, 0, 128, 255, 64]);
}

#[test]
fn png_without_alpha_is_refused() {
    assert_eq!(load_icon(&RGB_PNG).unwrap_err(), IconError::NotRgba8);
}

#[test]
fn bytes_that_are_no_png_are_refused() {
    assert_eq!(load_icon(b"not an image").unwrap_err(), IconError::Undecodable);
    assert_eq!(load_icon(&[]).unwrap_err(), IconError::Undecodable);
    assert_eq!(load_icon(&RGBA_PNG[..40]).unwrap_err(), IconError::Undecodable);
}

#[test]
fn decoded_pixels_must_fill_the_size() {
    let short = Decoded::Rgba8 { width: 2, height: 2, pixels: vec![0; 12] };
    assert_eq!(icon_from_decoded(short).unwrap_err(), IconError::BadDimensions);
    let ragged = Decoded::Rgba8 { width: 1, height: 1, pixels: vec![0; 5] };
    assert_eq!(icon_from_decoded(ragged).unwrap_err(), IconError::BadDimensions);
    let exact = Decoded::Rgba8 { width: 2, height: 2, pixels: vec![7; 16] };
    let icon = icon_from_decoded(exact).unwrap();
    assert_eq!((icon.width(), icon.height()), (2, 2));
    assert_eq!(icon.rgba(), &vec![7; 16]);
}

#[test]
fn empty_image_is_an_icon_of_no_pixels() {
    let icon = icon_from_decoded(Decoded::Rgba8 { width: 0, height: 5, pixels: Vec::new() }).unwrap();
    assert!(icon.rgba().is_empty());
}

#[test]
fn other_decodings_are_errors() {
    assert_eq!(icon_from_decoded(Decoded::OtherLayout).unwrap_err(), IconError::NotRgba8);
    assert_eq!(icon_from_decoded(Decoded::Invalid).unwrap_err(), IconError::Undecodable);
}

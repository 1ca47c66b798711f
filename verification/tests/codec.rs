use tauri_plugin_clipboard::{
    base64_from_clipboard_image, base64_from_encoded, image_data_to_base64, image_data_to_bytes,
    image_from_base64, image_from_bytes, image_from_decoded, image_from_read,
    png_from_clipboard_image, ImageData,
};

const PNG_SIGNATURE: [u8; 8] = [0x89, b'P', b'N', b'G', 0x0d, 0x0a, 0x1a, 0x0a];

fn two_by_one() -> ImageData {
    ImageData { width: 2, height: 1, bytes: vec![255, 0, 0, 255, 0, 0, 255, 128] }
}

#[test]
fn well_formed_images_fill_their_dimensions() {
    assert!(two_by_one().is_well_formed());
    assert!(ImageData { width: 0, height: 0, bytes: vec![] }.is_well_formed());
    assert!(ImageData { width: 0, height: 5, bytes: vec![] }.is_well_formed());
    assert!(!ImageData { width: 2, height: 1, bytes: vec![0; 7] }.is_well_formed());
    assert!(!ImageData { width: 2, height: 1, bytes: vec![0; 9] }.is_well_formed());
    assert!(!ImageData { width: 1, height: 1, bytes: vec![] }.is_well_formed());
    assert!(!ImageData { width: usize::MAX, height: 1, bytes: vec![] }.is_well_formed());
    assert!(!ImageData { width: 1, height: usize::MAX, bytes: vec![] }.is_well_formed());
    assert!(!ImageData { width: usize::MAX, height: usize::MAX, bytes: vec![] }.is_well_formed());
}

#[test]
fn bytes_are_encoded_as_standard_base64() {
    assert_eq!(base64_from_encoded(Ok(b"hello".to_vec())), Ok("aGVsbG8=".to_string()));
    assert_eq!(base64_from_encoded(Ok(vec![0xfb, 0xff])), Ok("+/8=".to_string()));
    assert_eq!(base64_from_encoded(Ok(vec![])), Ok(String::new()));
}

#[test]
fn encoding_error_is_passed_on() {
    assert_eq!(base64_from_encoded(Err("image is empty".to_string())), Err("image is empty".to_string()));
}

#[test]
fn decoding_error_is_passed_on() {
    assert_eq!(image_from_decoded(Err("Invalid padding".to_string())), Err("Invalid padding".to_string()));
}

#[test]
fn image_data_is_written_as_png() {
    let image = two_by_one();
    let file = image_data_to_bytes(&image).unwrap();
    assert_eq!(file[..8], PNG_SIGNATURE);
    assert_ne!(file, image.bytes);
    let decoded = image::load_from_memory(&file).unwrap().to_rgba8();
    assert_eq!((decoded.width(), decoded.height()), (2, 1));
    assert_eq!(decoded.into_raw(), image.bytes);
}

#[test]
fn image_data_is_written_as_base64_of_its_png() {
    let image = two_by_one();
    let file = image_data_to_bytes(&image).unwrap();
    let text = image_data_to_base64(&image).unwrap();
    assert_eq!(Ok(text.clone()), base64_from_encoded(Ok(file.clone())));
    assert!(text.starts_with("iVBORw0KGgo"));
    assert_eq!(image_from_base64(&text), Ok(image));
}

#[test]
fn images_with_a_zero_dimension_have_no_pixels() {
    assert!(two_by_one().has_pixels());
    assert!(!ImageData { width: 0, height: 0, bytes: vec![] }.has_pixels());
    assert!(!ImageData { width: 0, height: 5, bytes: vec![] }.has_pixels());
    assert!(!ImageData { width: 5, height: 0, bytes: vec![] }.has_pixels());
}

#[test]
fn clipboard_image_without_pixels_gives_an_error() {
    for (width, height) in [(0, 0), (0, 3), (3, 0)] {
        let empty = ImageData { width, height, bytes: vec![] };
        assert!(empty.is_well_formed());
        assert!(png_from_clipboard_image(&empty).is_err());
        assert!(base64_from_clipboard_image(&empty).is_err());
    }
}

#[test]
fn image_from_a_decoder_is_accepted_if_it_fills_its_dimensions() {
    assert_eq!(image_from_read(Ok(two_by_one())), Ok(two_by_one()));
    let short = ImageData { width: 2, height: 1, bytes: vec![0; 7] };
    assert_eq!(
        image_from_read(Ok(short)),
        Err("Image buffer does not match its dimensions".to_string())
    );
    let long = ImageData { width: 2, height: 1, bytes: vec![0; 12] };
    assert_eq!(
        image_from_read(Ok(long)),
        Err("Image buffer does not match its dimensions".to_string())
    );
    assert_eq!(
        image_from_read(Err("unknown format".to_string())),
        Err("unknown format".to_string())
    );
}

#[test]
fn image_that_is_read_is_well_formed() {
    let file = image_data_to_bytes(&two_by_one()).unwrap();
    assert!(image_from_bytes(&file).unwrap().is_well_formed());
    assert!(image_from_decoded(Ok(file)).unwrap().is_well_formed());
}

#[test]
fn clipboard_image_is_read_as_png() {
    let image = two_by_one();
    let file = png_from_clipboard_image(&image).unwrap();
    assert_eq!(file[..8], PNG_SIGNATURE);
    assert_ne!(file, image.bytes);
    assert_eq!(image_from_bytes(&file), Ok(image));
}

#[test]
fn clipboard_image_is_read_as_base64_of_its_png() {
    let image = two_by_one();
    let file = png_from_clipboard_image(&image).unwrap();
    let text = base64_from_clipboard_image(&image).unwrap();
    assert_eq!(Ok(text.clone()), base64_from_encoded(Ok(file)));
    assert_eq!(image_from_base64(&text), Ok(image));
}

#[test]
fn image_is_read_from_an_encoded_file() {
    let image = ImageData {
        width: 1,
        height: 2,
        bytes: vec![1, 2, 3, 4, 250, 251, 252, 253],
    };
    let file = image_data_to_bytes(&image).unwrap();
    assert_eq!(image_from_bytes(&file), Ok(image.clone()));
    assert_eq!(image_from_decoded(Ok(file)), Ok(image));
}

#[test]
fn bytes_that_are_no_image_are_refused() {
    assert!(image_from_bytes(b"not an image").is_err());
    assert!(image_from_bytes(&[]).is_err());
    assert!(image_from_decoded(Ok(b"not an image".to_vec())).is_err());
    // Valid base64 of bytes that are no image.
    assert!(image_from_base64("aGVsbG8=").is_err());
}

#[test]
fn text_that_is_no_base64_is_refused_with_the_decoder_s_words() {
    assert_eq!(image_from_base64("!!!!"), Err("Invalid symbol 33, offset 0.".to_string()));
    assert_eq!(image_from_base64("aGVsbG8"), Err("Invalid padding".to_string()));
}

use antex::images::{check_rgba, shrink_dimensions, source_media_type, ImageFormatKind};

#[test]
fn clipboard_pixels_need_sides_and_four_bytes_each() {
    assert_eq!(check_rgba(2, 3, 24), Ok(()));
    assert_eq!(check_rgba(0, 3, 0), Err("invalid clipboard image dimensions".to_string()));
    assert_eq!(check_rgba(8193, 1, 32772), Err("invalid clipboard image dimensions".to_string()));
    assert_eq!(check_rgba(2, 3, 23), Err("invalid clipboard image byte budget".to_string()));
    assert_eq!(check_rgba(8192, 8192, 268435456), Err("invalid clipboard image byte budget".to_string()));
    assert_eq!(check_rgba(8192, 4096, 134217728), Ok(()));
}

#[test]
fn small_files_of_known_encodings_are_sent_as_they_are() {
    assert_eq!(source_media_type(ImageFormatKind::Png, 10, 10, 100), Ok(Some("image/png".to_string())));
    assert_eq!(source_media_type(ImageFormatKind::Jpeg, 2048, 2048, 3145728), Ok(Some("image/jpeg".to_string())));
    assert_eq!(source_media_type(ImageFormatKind::Gif, 1, 1, 1), Ok(Some("image/gif".to_string())));
    assert_eq!(source_media_type(ImageFormatKind::WebP, 1, 1, 1), Ok(Some("image/webp".to_string())));
    assert_eq!(source_media_type(ImageFormatKind::Other, 1, 1, 1), Err("unsupported image format".to_string()));
}

#[test]
fn large_files_are_encoded_again() {
    assert_eq!(source_media_type(ImageFormatKind::Png, 2049, 10, 100), Ok(None));
    assert_eq!(source_media_type(ImageFormatKind::Png, 10, 10, 3145729), Ok(None));
    assert_eq!(source_media_type(ImageFormatKind::Other, 4000, 10, 100), Ok(None));
}

#[test]
fn pictures_shrink_by_a_quarter_until_one_pixel() {
    assert_eq!(shrink_dimensions(2048, 1536), Some((1536, 1152)));
    assert_eq!(shrink_dimensions(3, 1), Some((2, 1)));
    assert_eq!(shrink_dimensions(1, 1), None);
    let (mut w, mut h) = (2048u32, 7u32);
    let mut steps = 0;
    while let Some((nw, nh)) = shrink_dimensions(w, h) {
        assert!(nw + nh < w + h);
        w = nw;
        h = nh;
        steps += 1;
    }
    assert_eq!((w, h), (1, 1));
    assert!(steps < 2055);
}

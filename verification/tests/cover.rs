use manga_shelf_lib::cover::{
    check_cover_size, cover_error, detect_image, is_managed_cover_components, managed_cover_path,
    plan_cover_file, superseded_cover, to_lower_hex, PathComponent, MAX_COVER_BYTES,
};
use manga_shelf_lib::models::{CoverAsset, CoverMimeType};
use sha2::{Digest, Sha256};

fn png_bytes() -> Vec<u8> {
    let mut bytes = b"\x89PNG\r\n\x1a\n".to_vec();
    bytes.extend_from_slice(b"manga-cover-content");
    bytes
}

fn asset(id: &str) -> CoverAsset {
    CoverAsset {
        id: id.to_string(),
        relative_path: format!("covers/{id}.png"),
        mime_type: CoverMimeType::Png,
        byte_size: 10,
        sha256: id.to_string(),
    }
}

#[test]
fn image_format_is_told_by_magic_bytes() {
    let (mime, extension) = detect_image(&[0xff, 0xd8, 0xff, 0xe0]).expect("jpeg");
    assert_eq!((mime, extension), (CoverMimeType::Jpeg, "jpg"));
    let (mime, extension) = detect_image(&png_bytes()).expect("png");
    assert_eq!((mime, extension), (CoverMimeType::Png, "png"));
    let (mime, extension) = detect_image(b"RIFF\x10\x00\x00\x00WEBPVP8 ").expect("webp");
    assert_eq!((mime, extension), (CoverMimeType::Webp, "webp"));
}

#[test]
fn empty_and_forged_files_are_not_images() {
    for bytes in [
        Vec::new(),
        b"not-an-image".to_vec(),
        vec![0xff, 0xd8],
        b"RIFF\x10\x00\x00\x00WEBX".to_vec(),
        b"RIFFWEBP".to_vec(),
    ] {
        let error = detect_image(&bytes).expect_err("no image");
        assert_eq!(error.code, "invalid_cover_image");
        assert_eq!(error.message, "The selected file is not a supported image.");
    }
}

#[test]
fn cover_size_limit_is_ten_mebibytes() {
    assert_eq!(MAX_COVER_BYTES, 10 * 1024 * 1024);
    assert!(check_cover_size(10 * 1024 * 1024).is_ok());
    let error = check_cover_size(10 * 1024 * 1024 + 1).expect_err("too large");
    assert_eq!(error.code, "cover_too_large");
    assert_eq!(error.message, "The cover image is too large.");
}

#[test]
fn cover_file_is_named_by_its_content() {
    let bytes = png_bytes();
    let file = plan_cover_file(&bytes).expect("cover file");
    let expected = format!("{:x}", Sha256::digest(&bytes));
    assert_eq!(file.mime_type, CoverMimeType::Png);
    assert_eq!(file.sha256, expected);
    assert_eq!(file.relative_path, format!("covers/{expected}.png"));
    assert_eq!(file.byte_size, bytes.len() as i64);
    let again = plan_cover_file(&bytes).expect("same content");
    assert_eq!(again.relative_path, file.relative_path);
}

#[test]
fn cover_file_rejects_unsupported_and_oversized_content() {
    let error = plan_cover_file(b"not-an-image").expect_err("forged");
    assert_eq!(error.code, "invalid_cover_image");
    let mut huge = png_bytes();
    huge.resize(10 * 1024 * 1024 + 1, 0);
    let error = plan_cover_file(&huge).expect_err("oversized");
    assert_eq!(error.code, "cover_too_large");
}

#[test]
fn hex_is_lowercase_two_digits_a_byte() {
    assert_eq!(to_lower_hex(&[0x00, 0x0a, 0xff, 0x10]), "000aff10");
    assert_eq!(to_lower_hex(&[]), "");
}

#[test]
fn only_paths_inside_the_covers_directory_are_managed() {
    assert_eq!(
        managed_cover_path("covers/abc.png").as_deref(),
        Some("covers/abc.png")
    );
    for path in ["../abc.png", "covers/../abc.png", "/covers/abc.png", "covers", "covers/a/b.png", "other/abc.png", ""] {
        assert_eq!(managed_cover_path(path), None, "{path}");
    }
}

#[test]
fn managed_components_are_covers_and_one_file() {
    let good = vec![
        PathComponent::Normal("covers".to_string()),
        PathComponent::Normal("a.png".to_string()),
    ];
    assert!(is_managed_cover_components(&good));
    let bad = vec![
        PathComponent::Normal("covers".to_string()),
        PathComponent::ParentDir,
    ];
    assert!(!is_managed_cover_components(&bad));
    let empty_name = vec![
        PathComponent::Normal("covers".to_string()),
        PathComponent::Normal(String::new()),
    ];
    assert!(!is_managed_cover_components(&empty_name));
}

#[test]
fn only_a_different_old_cover_is_superseded() {
    assert_eq!(superseded_cover(Some(asset("a")), &asset("b")), Some(asset("a")));
    assert_eq!(superseded_cover(Some(asset("a")), &asset("a")), None);
    assert_eq!(superseded_cover(None, &asset("a")), None);
}

#[test]
fn cover_errors_hide_details() {
    let error = cover_error();
    assert_eq!(error.code, "cover_operation_failed");
    assert_eq!(error.message, "Unable to store the selected cover image.");
}

#[test]
fn portable_paths_are_managed_exactly_as_covers_and_one_name() {
    for path in ["covers/a.png", "covers//a.png", "covers/./a.png", "covers/a.png/"] {
        assert_eq!(managed_cover_path(path).as_deref(), Some(path), "{path}");
    }
    for path in [
        "a.png",
        "library.sqlite3",
        "covers/x/a.png",
        "./covers/a.png",
        "covers/..",
        "covers/.",
        "covers/",
        "x/a.png",
    ] {
        assert_eq!(managed_cover_path(path), None, "{path}");
    }
}

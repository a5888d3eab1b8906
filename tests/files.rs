use modpack_installer::{
    cleanup_log_level, contains_str, convert_icon, decimal_string, get_prism_launcher_data,
    get_prism_launcher_exec, icon_extension, join_path, payload_length,
    to_chars, trailer_offset, CleanupStep, InstallError, LogLevel, TemporaryFileCleaner,
};

#[test]
fn temp_file_name_shape() {
    let g = TemporaryFileCleaner::new("/tmp");
    let p = g.file_path();
    assert!(p.starts_with("/tmp/tempfile-"));
    assert!(p.ends_with(".tmp"));
    assert_eq!(p.len(), "/tmp/tempfile-".len() + 36 + ".tmp".len());
}

#[test]
fn temp_file_names_are_unique() {
    let a = TemporaryFileCleaner::new_with_extension("C:\\Temp\\", "jpg");
    let b = TemporaryFileCleaner::new_with_extension("C:\\Temp\\", "jpg");
    assert_ne!(a.file_path(), b.file_path());
    assert!(a.file_path().starts_with("C:\\Temp\\tempfile-"));
    assert!(a.file_path().ends_with(".jpg"));
}

#[test]
fn missing_file_cleanup_is_silent() {
    let g = TemporaryFileCleaner::new("/tmp");
    assert_eq!(g.cleanup_step(false), CleanupStep::Skip);
    assert_eq!(cleanup_log_level(false, false), LogLevel::Debug);
    assert_eq!(g.cleanup_step(true), CleanupStep::Remove);
    assert_eq!(cleanup_log_level(true, true), LogLevel::Trace);
    assert_eq!(cleanup_log_level(true, false), LogLevel::Debug);
}

#[test]
fn join_paths() {
    assert_eq!(join_path("/tmp", "a"), "/tmp/a");
    assert_eq!(join_path("/tmp/", "a"), "/tmp/a");
    assert_eq!(join_path("", "a"), "a");
}

#[test]
fn launcher_exec_from_open_command() {
    let cmd = "\"C:\\Program Files\\PrismLauncher\\prismlauncher.exe\" \"%1\"".to_string();
    assert_eq!(
        get_prism_launcher_exec(Some(cmd)),
        Ok(Some("C:\\Program Files\\PrismLauncher\\prismlauncher.exe".to_string()))
    );
    assert_eq!(get_prism_launcher_exec(None), Ok(None));
    assert_eq!(get_prism_launcher_exec(Some("no quotes".to_string())), Ok(None));
    assert_eq!(get_prism_launcher_exec(Some("\"\" x".to_string())), Ok(None));
    assert_eq!(get_prism_launcher_exec(Some("a \"b".to_string())), Ok(Some("b".to_string())));
}

#[test]
fn launcher_data_is_exec_directory() {
    let exec = Ok(Some("/opt/prism/prismlauncher".to_string()));
    assert_eq!(get_prism_launcher_data(exec), Ok(Some("/opt/prism".to_string())));
    assert_eq!(
        get_prism_launcher_data(Ok(None)),
        Err("PrismLauncher executable not found".to_string())
    );
    assert_eq!(get_prism_launcher_data(Err("boom".to_string())), Err("boom".to_string()));
}

#[test]
fn launcher_data_follows_path_parent() {
    let data = |p: &str| get_prism_launcher_data(Ok(Some(p.to_string())));
    assert_eq!(data("a/b/"), Ok(Some("a".to_string())));
    assert_eq!(data("/prismlauncher"), Ok(Some("/".to_string())));
    assert_eq!(data("/"), Ok(None));
    assert_eq!(data("prismlauncher"), Ok(Some(String::new())));
    assert_eq!(data(""), Ok(None));
}

#[test]
fn trailer_checks() {
    assert_eq!(trailer_offset(7), Err("Executable file is too small".to_string()));
    assert_eq!(trailer_offset(100), Ok(92));
    assert_eq!(payload_length(100, &[10, 0, 0, 0, 0, 0, 0, 0]), Ok(10));
    assert_eq!(payload_length(100, &[92, 0, 0, 0, 0, 0, 0, 0]), Ok(92));
    assert_eq!(
        payload_length(100, &[93, 0, 0, 0, 0, 0, 0, 0]),
        Err("Invalid URL length: 93".to_string())
    );
    assert_eq!(
        payload_length(100, &[0, 0, 0, 0, 0, 0, 0, 0]),
        Err("Invalid URL length: 0".to_string())
    );
    assert_eq!(
        payload_length(u64::MAX, &[0, 1, 0, 0, 0, 0, 0, 0]),
        Ok(256)
    );
}

#[test]
fn icon_extension_from_logo_url() {
    assert_eq!(
        icon_extension("https://discord.do/wp-content/uploads/2023/08/MineColonies.jpg").unwrap(),
        "jpg"
    );
    assert_eq!(icon_extension("https://example.com/a/icon").unwrap(), "icon");
    assert_eq!(icon_extension("https://example.com").unwrap(), "");
    assert!(matches!(icon_extension("not a url"), Err(InstallError::Format(_))));
    assert!(matches!(icon_extension("data:text/plain,x"), Err(InstallError::Format(_))));
}

fn tiny_png() -> Vec<u8> {
    let img = image::RgbaImage::from_pixel(4, 4, image::Rgba([10, 20, 30, 255]));
    let mut out = std::io::Cursor::new(Vec::new());
    image::DynamicImage::ImageRgba8(img)
        .write_to(&mut out, image::ImageFormat::Png)
        .unwrap();
    out.into_inner()
}

#[test]
fn icon_conversion_writes_ico_only_when_missing() {
    let src = tiny_png();
    let both = convert_icon(&src, false).unwrap();
    assert!(both.png.starts_with(&[0x89, b'P', b'N', b'G']));
    let ico = both.ico.unwrap();
    assert_eq!(&ico[0..4], &[0, 0, 1, 0]);
    let png_only = convert_icon(&src, true).unwrap();
    assert!(png_only.ico.is_none());
    assert_eq!(png_only.png, both.png);
    let decoded = image::load_from_memory(&both.png).unwrap();
    assert_eq!((decoded.width(), decoded.height()), (4, 4));
    assert_eq!(decoded.to_rgba8().get_pixel(2, 3).0, [10, 20, 30, 255]);
}

#[test]
fn icon_conversion_rejects_truncated_png() {
    let src = tiny_png();
    assert!(matches!(convert_icon(&src[..src.len() / 2], true), Err(InstallError::Decode)));
}

#[test]
fn icon_conversion_rejects_garbage() {
    assert!(matches!(convert_icon(b"not an image", false), Err(InstallError::Decode)));
}

#[test]
fn text_helpers() {
    assert!(contains_str("abcdef", "cde"));
    assert!(contains_str("abc", ""));
    assert!(!contains_str("abc", "abcd"));
    assert!(!contains_str("abc", "ac"));
    assert_eq!(decimal_string(0), "0");
    assert_eq!(decimal_string(18446744073709551615), "18446744073709551615");
    assert_eq!(to_chars("hé"), vec!['h', 'é']);
}

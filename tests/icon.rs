use echo_shell::icon::{choose_icon, resolve_icon, Icon, SetupError, DEV_RESOURCE_ROOT, TRAY_ICON_PATH};

fn png(width: u32, height: u32) -> Vec<u8> {
    let img = image::RgbaImage::from_pixel(width, height, image::Rgba([10, 20, 30, 255]));
    let mut out = std::io::Cursor::new(Vec::new());
    img.write_to(&mut out, image::ImageFormat::Png).unwrap();
    out.into_inner()
}

fn default_icon() -> Icon {
    Icon { rgba: vec![1, 2, 3, 4], width: 1, height: 1 }
}

#[test]
fn valid_resource_icon_gives_its_dimensions() {
    let icon = resolve_icon(&vec![Some(png(3, 2)), Some(png(5, 5))], Some(default_icon())).unwrap();
    assert_eq!((icon.width, icon.height), (3, 2));
    assert_eq!(icon.rgba.len(), 3 * 2 * 4);
    assert_eq!(&icon.rgba[0..4], &[10, 20, 30, 255]);
}

#[test]
fn decoding_returns_pixels_not_file_bytes() {
    let bytes = png(2, 2);
    let icon = resolve_icon(&vec![Some(bytes.clone())], None).unwrap();
    assert_ne!(icon.rgba, bytes);
    assert_eq!(icon.rgba, [10, 20, 30, 255].repeat(4));
}

#[test]
fn second_candidate_used_when_first_is_missing_or_broken() {
    let icon = resolve_icon(&vec![None, Some(png(4, 1))], None).unwrap();
    assert_eq!((icon.width, icon.height), (4, 1));
    let icon = resolve_icon(&vec![Some(b"not an image".to_vec()), Some(png(6, 7))], None).unwrap();
    assert_eq!((icon.width, icon.height), (6, 7));
}

#[test]
fn no_valid_candidate_falls_back_to_default() {
    let icon = resolve_icon(&vec![None, Some(Vec::new()), Some(vec![0x89, b'P', b'N', b'G'])], Some(default_icon()))
        .unwrap();
    assert_eq!((icon.width, icon.height, icon.rgba), (1, 1, vec![1, 2, 3, 4]));
}

#[test]
fn no_icon_at_all_is_a_setup_error() {
    assert!(matches!(resolve_icon(&vec![None, Some(vec![1, 2, 3])], None), Err(SetupError::NoIcon)));
    assert!(matches!(resolve_icon(&Vec::new(), None), Err(SetupError::NoIcon)));
}

#[test]
fn choose_icon_takes_first_decoded() {
    let a = Icon { rgba: vec![0; 4], width: 1, height: 1 };
    let b = Icon { rgba: vec![0; 8], width: 2, height: 1 };
    let icon = choose_icon(vec![None, Some(b), Some(a)], None).unwrap();
    assert_eq!(icon.width, 2);
    let icon = choose_icon(vec![None, None], Some(default_icon())).unwrap();
    assert_eq!(icon.rgba, vec![1, 2, 3, 4]);
    assert!(matches!(choose_icon(Vec::new(), None), Err(SetupError::NoIcon)));
}

#[test]
fn icon_paths() {
    assert_eq!(TRAY_ICON_PATH, "icons/32x32.png");
    assert_eq!(DEV_RESOURCE_ROOT, "src-tauri");
}

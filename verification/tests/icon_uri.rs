use dzsspeedy::icon::{icon_png_data_uri, png_data_uri, swap_red_blue, ICON_SIZE};

#[test]
fn swaps_blue_and_red() {
    assert_eq!(swap_red_blue(&[1, 2, 3, 4, 5, 6, 7, 8]), vec![3, 2, 1, 4, 7, 6, 5, 8]);
    assert_eq!(swap_red_blue(&[]), Vec::<u8>::new());
}

#[test]
fn icon_becomes_a_png_data_uri() {
    let n = (ICON_SIZE * ICON_SIZE * 4) as usize;
    let mut bgra = vec![0u8; n];
    for (i, b) in bgra.iter_mut().enumerate() {
        *b = (i % 251) as u8;
    }
    let uri = icon_png_data_uri(&bgra).unwrap();
    let prefix = "data:image/png;base64,";
    assert!(uri.starts_with(prefix));
    let b64 = &uri[prefix.len()..];
    // A PNG file starts with its eight-byte signature, whose base64 is fixed.
    assert!(b64.starts_with("iVBORw0KGgo"));
    assert_eq!(b64.len() % 4, 0);
    assert!(b64.chars().all(|c| c.is_ascii_alphanumeric() || c == '+' || c == '/' || c == '='));
    let other = icon_png_data_uri(&vec![0u8; n]).unwrap();
    assert_ne!(uri, other);
}

#[test]
fn png_bytes_become_a_base64_data_uri() {
    assert_eq!(png_data_uri(&[]), "data:image/png;base64,");
    assert_eq!(png_data_uri(&[0x89]), "data:image/png;base64,iQ==");
    assert_eq!(png_data_uri(&[0x89, 0x50]), "data:image/png;base64,iVA=");
    assert_eq!(png_data_uri(&[0x89, 0x50, 0x4e, 0x47]), "data:image/png;base64,iVBORw==");
    assert_eq!(png_data_uri(&[0xff, 0xfe, 0xfd]), "data:image/png;base64,//79");
}

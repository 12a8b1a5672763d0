use libcryptsetup_rs::err::LibcryptErr;
use libcryptsetup_rs::marshal::{
    bytes_eq, find_nul, from_str_ptr, from_str_ptr_to_owned, name_to_cstring, opt_path_to_cstring,
    opt_str_to_cstring, opt_to_cstring, path_to_cstring, paths_to_cstrings, read_bytes,
    read_opt_path, read_opt_text, read_path, read_paths, read_text, reported_length, to_cstring,
    NativeText,
};

#[test]
fn test_text_round_trip() {
    for text in &["", "aes", "xts-plain64", "gr\u{fc}\u{df}e \u{4e16}\u{754c} \u{1f512}"] {
        let native = to_cstring(text).unwrap();
        assert_eq!(native.as_bytes(), text.as_bytes());
        assert_eq!(native.len(), text.len());
        let mut expected = text.as_bytes().to_vec();
        expected.push(0);
        assert_eq!(native.as_bytes_with_nul(), &expected[..]);
        assert_eq!(from_str_ptr(native.as_bytes_with_nul()).unwrap(), *text);
        assert_eq!(from_str_ptr_to_owned(native.as_bytes_with_nul()).unwrap(), text.to_string());
        assert_eq!(native.to_str().unwrap(), *text);
    }
}

#[test]
fn test_embedded_terminator_fails() {
    assert!(matches!(to_cstring("ab\0cd"), Err(LibcryptErr::NullError(2))));
    assert!(matches!(to_cstring("\0"), Err(LibcryptErr::NullError(0))));
    assert!(matches!(to_cstring("a\0b\0"), Err(LibcryptErr::NullError(1))));
    assert!(matches!(NativeText::new(b"key\0"), Err(LibcryptErr::NullError(3))));
}

#[test]
fn test_native_text_from_ptr_stops_at_terminator() {
    let native = NativeText::from_ptr(b"LUKS2\0rest");
    assert_eq!(native.as_bytes(), b"LUKS2");
    assert_eq!(native.as_bytes_with_nul(), b"LUKS2\0");
    let whole = NativeText::from_ptr(b"plain");
    assert_eq!(whole.as_bytes_with_nul(), b"plain\0");
    let empty = NativeText::from_ptr(b"");
    assert_eq!(empty.len(), 0);
    assert_eq!(empty.as_bytes_with_nul(), b"\0");
}

#[test]
fn test_find_nul() {
    assert_eq!(find_nul(b""), 0);
    assert_eq!(find_nul(b"abc"), 3);
    assert_eq!(find_nul(b"ab\0c\0"), 2);
    assert_eq!(find_nul(b"\0"), 0);
}

#[test]
fn test_from_str_ptr_invalid_text() {
    assert!(matches!(from_str_ptr(&[0xff, 0xfe, 0]), Err(LibcryptErr::Utf8Error(_))));
    assert!(matches!(
        from_str_ptr_to_owned(&[b'a', 0xc3, 0]),
        Err(LibcryptErr::Utf8Error(_))
    ));
    match from_str_ptr(&[b'o', b'k', 0xff]) {
        Err(LibcryptErr::Utf8Error(e)) => assert_eq!(e.valid_up_to(), 2),
        _ => panic!("expected an encoding error"),
    }
    assert_eq!(from_str_ptr(&[b'o', b'k', 0, 0xff]).unwrap(), "ok");
}

#[test]
fn test_path_to_cstring() {
    assert_eq!(path_to_cstring(b"/dev/sda1").unwrap().as_bytes_with_nul(), b"/dev/sda1\0");
    assert!(matches!(path_to_cstring(&[b'/', 0xff]), Err(LibcryptErr::InvalidConversion)));
    assert!(matches!(path_to_cstring(b"/dev\0/sda"), Err(LibcryptErr::NullError(4))));
    assert!(matches!(path_to_cstring(&[0xff, 0]), Err(LibcryptErr::InvalidConversion)));
}

#[test]
fn test_optional_values() {
    assert!(opt_to_cstring(&None).unwrap().is_none());
    assert_eq!(
        opt_to_cstring(&Some("label".to_string())).unwrap().unwrap().as_bytes_with_nul(),
        b"label\0"
    );
    assert_eq!(opt_to_cstring(&Some(String::new())).unwrap().unwrap().as_bytes_with_nul(), b"\0");
    assert!(matches!(
        opt_to_cstring(&Some("la\0bel".to_string())),
        Err(LibcryptErr::NullError(2))
    ));
    assert!(opt_str_to_cstring(None).unwrap().is_none());
    assert_eq!(opt_str_to_cstring(Some("name")).unwrap().unwrap().as_bytes(), b"name");
    assert!(matches!(opt_str_to_cstring(Some("\0")), Err(LibcryptErr::NullError(0))));
    assert!(opt_path_to_cstring(&None).unwrap().is_none());
    assert_eq!(
        opt_path_to_cstring(&Some(b"/dev/vdb".to_vec())).unwrap().unwrap().as_bytes(),
        b"/dev/vdb"
    );
    assert!(matches!(
        opt_path_to_cstring(&Some(vec![0x80])),
        Err(LibcryptErr::InvalidConversion)
    ));
}

#[test]
fn test_read_pointers() {
    let text = Some(to_cstring("sha256").unwrap());
    assert_eq!(read_text(&text).unwrap(), "sha256");
    assert!(matches!(read_text(&None), Err(LibcryptErr::NullPtr)));
    assert_eq!(read_opt_text(&text).unwrap(), Some("sha256".to_string()));
    assert_eq!(read_opt_text(&None).unwrap(), None);
    let path = Some(to_cstring("/dev/loop0").unwrap());
    assert_eq!(read_path(&path).unwrap(), b"/dev/loop0".to_vec());
    assert!(matches!(read_path(&None), Err(LibcryptErr::NullPtr)));
    assert_eq!(read_opt_path(&path).unwrap(), Some(b"/dev/loop0".to_vec()));
    assert_eq!(read_opt_path(&None).unwrap(), None);
    let bad = Some(NativeText::from_ptr(&[0xff, 0]));
    assert!(matches!(read_text(&bad), Err(LibcryptErr::Utf8Error(_))));
    assert!(matches!(read_opt_text(&bad), Err(LibcryptErr::Utf8Error(_))));
    assert!(matches!(read_path(&bad), Err(LibcryptErr::Utf8Error(_))));
    assert!(matches!(read_opt_path(&bad), Err(LibcryptErr::Utf8Error(_))));
}

#[test]
fn test_read_bytes() {
    let buffer = Some(vec![1u8, 2, 3, 4]);
    assert_eq!(read_bytes(&buffer, 4).unwrap(), vec![1, 2, 3, 4]);
    assert_eq!(read_bytes(&buffer, 2).unwrap(), vec![1, 2]);
    assert_eq!(read_bytes(&buffer, 0).unwrap(), Vec::<u8>::new());
    assert!(matches!(read_bytes(&buffer, 5), Err(LibcryptErr::InvalidConversion)));
    assert!(matches!(read_bytes(&None, 0), Err(LibcryptErr::NullPtr)));
}

#[test]
fn test_path_lists() {
    let paths = vec![b"/a".to_vec(), b"/b/c".to_vec()];
    let natives = paths_to_cstrings(&paths).unwrap();
    assert_eq!(natives.len(), 2);
    assert_eq!(natives[0].as_bytes_with_nul(), b"/a\0");
    assert_eq!(natives[1].as_bytes_with_nul(), b"/b/c\0");
    assert_eq!(read_paths(&natives, 2).unwrap(), paths);
    assert_eq!(read_paths(&natives, 1).unwrap(), vec![b"/a".to_vec()]);
    assert!(read_paths(&natives, 0).unwrap().is_empty());
    assert!(paths_to_cstrings(&vec![]).unwrap().is_empty());
    let bad = vec![b"/a".to_vec(), vec![0xff], b"/\0".to_vec()];
    assert!(matches!(paths_to_cstrings(&bad), Err(LibcryptErr::InvalidConversion)));
    let bad = vec![b"/a\0".to_vec(), vec![0xff]];
    assert!(matches!(paths_to_cstrings(&bad), Err(LibcryptErr::NullError(2))));
}

#[test]
fn test_small_helpers() {
    assert!(bytes_eq(b"abc", b"abc"));
    assert!(!bytes_eq(b"abc", b"abd"));
    assert!(!bytes_eq(b"abc", b"ab"));
    assert!(bytes_eq(b"", b""));
    assert_eq!(name_to_cstring("PLAIN").as_bytes_with_nul(), b"PLAIN\0");
    assert_eq!(reported_length(0), 0);
    assert_eq!(reported_length(32), 32);
    assert_eq!(reported_length(0x1_0000_0005), 5);
}

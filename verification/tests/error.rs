use xchannel::error::{XError, XErrorKind};

const KINDS: [(XErrorKind, i64, &str); 7] = [
    (XErrorKind::DriverError, 1001, "Driver Error: "),
    (XErrorKind::DeviceError, 1002, "Device Error: "),
    (XErrorKind::TableError, 1003, "Table Error: "),
    (XErrorKind::TagError, 1004, "Tag Error: "),
    (XErrorKind::ParameterError, 1005, "Parameter Error: "),
    (XErrorKind::DBError, 1101, "DB Error: "),
    (XErrorKind::IOError, 1201, "Other Error: "),
];

#[test]
fn new_keeps_kind_and_text() {
    for (kind, _, _) in KINDS {
        let e = XError::new(kind, "what happened");
        assert_eq!(e.kind(), kind);
        assert_eq!(e.get_index(), -1);
    }
    assert!(matches!(XError::new(XErrorKind::TagError, "t"), XError::TagError(-1, m) if m == "t"));
    assert!(matches!(XError::new(XErrorKind::DBError, "d"), XError::DBError(m) if m == "d"));
}

#[test]
fn codes_of_the_kinds() {
    for (kind, code, _) in KINDS {
        assert_eq!(XError::new(kind, "").code(), code);
    }
}

#[test]
fn messages_open_with_the_kind() {
    for (kind, _, prefix) in KINDS {
        let message = XError::new(kind, "no such thing").message();
        if kind == XErrorKind::TagError {
            assert_eq!(message, "Tag Error: no such thing (-1)");
        } else {
            assert_eq!(message, format!("{}no such thing", prefix));
        }
    }
}

#[test]
fn tag_message_gives_the_index_in_brackets() {
    assert_eq!(XError::TagError(0, "m".to_string()).message(), "Tag Error: m (0)");
    assert_eq!(XError::TagError(7, "m".to_string()).message(), "Tag Error: m (7)");
    assert_eq!(XError::TagError(10, "m".to_string()).message(), "Tag Error: m (10)");
    assert_eq!(XError::TagError(12345, "".to_string()).message(), "Tag Error:  (12345)");
    assert_eq!(XError::TagError(-40, "m".to_string()).message(), "Tag Error: m (-40)");
    assert_eq!(XError::TagError(i32::MAX, "m".to_string()).message(), "Tag Error: m (2147483647)");
    assert_eq!(XError::TagError(i32::MIN, "m".to_string()).message(), "Tag Error: m (-2147483648)");
}

#[test]
fn with_index_sets_the_index_of_a_tag_error_only() {
    let tag = XError::new(XErrorKind::TagError, "bad tag").with_index(3);
    assert_eq!(tag.get_index(), 3);
    assert_eq!(tag.kind(), XErrorKind::TagError);
    assert_eq!(tag.message(), "Tag Error: bad tag (3)");
    let again = tag.with_index(5);
    assert_eq!(again.get_index(), 5);
    assert_eq!(tag.get_index(), 3);
    for (kind, _, prefix) in KINDS {
        if kind != XErrorKind::TagError {
            let e = XError::new(kind, "x").with_index(3);
            assert_eq!(e.kind(), kind);
            assert_eq!(e.get_index(), -1);
            assert_eq!(e.message(), format!("{}x", prefix));
        }
    }
}

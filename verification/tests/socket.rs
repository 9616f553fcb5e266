use vault_kms_provider::utilities::socket::{Listen, Socket};

#[test]
fn can_parse_a_string_into_a_permissions_u32() {
    let socket = Socket::with_permissions("777");
    assert_eq!(0o777, socket.permissions);
}

#[test]
fn falls_back_to_the_default_permissions() {
    assert_eq!(Socket::with_permissions("rwx").permissions, 0o666);
    assert_eq!(Socket::with_permissions("").permissions, 0o666);
    assert_eq!(Socket::with_permissions("888").permissions, 0o666);
    assert_eq!(Socket::default().permissions, 0o666);
    assert_eq!(Socket::new("600").permissions, 0o600);
}

#[test]
fn formats_an_abstract_path_with_a_leading_zero_byte() {
    assert_eq!(
        Socket::format_path("@test_files/abstract_test.sock"),
        b"\0test_files/abstract_test.sock".to_vec()
    );
    assert_eq!(Socket::format_path("@"), b"\0".to_vec());
}

#[test]
fn leaves_a_file_path_as_it_is() {
    assert_eq!(
        Socket::format_path("./test_files/test.sock"),
        b"./test_files/test.sock".to_vec()
    );
    assert_eq!(Socket::format_path(""), Vec::<u8>::new());
    assert_eq!(Socket::format_path("a@b"), b"a@b".to_vec());
}

#[test]
fn does_not_create_abstract_sockets_on_filesystem() {
    let socket = Socket::with_permissions("777");
    assert_eq!(
        socket.listen("@test_files/abstract_test2.sock"),
        Listen {
            address: b"\0test_files/abstract_test2.sock".to_vec(),
            prepare_file: false,
            permissions: None,
        }
    );
    assert_eq!(
        socket.listen("\0already_abstract"),
        Listen {
            address: b"\0already_abstract".to_vec(),
            prepare_file: false,
            permissions: None,
        }
    );
}

#[test]
fn can_create_and_connect_to_file_sockets() {
    let socket = Socket::with_permissions("660");
    assert_eq!(
        socket.listen("./test_files/test.sock"),
        Listen {
            address: b"./test_files/test.sock".to_vec(),
            prepare_file: true,
            permissions: Some(0o660),
        }
    );
}

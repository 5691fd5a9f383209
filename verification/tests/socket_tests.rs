use polychat_ipc::socket::{
    generate_random_ipc_id, get_socket_name, is_alphanumeric_char, is_valid_endpoint_id,
    socket_name_with, AttachStep, NameSupport, SocketHandler,
};

#[test]
fn a_new_endpoint_has_its_resolved_name_and_no_connection() {
    let handler = SocketHandler::new("polychat");
    assert_eq!(handler.get_socket_name(), &get_socket_name("polychat"));
    assert!(!handler.attached());
}

#[test]
fn only_an_existing_socket_file_is_removed() {
    for support in [NameSupport::OnlyPaths, NameSupport::Both] {
        let handler = SocketHandler::with_support("polychat", support);
        assert_eq!(handler.get_support(), support);
        assert!(handler.remove_on_drop(true));
        assert!(!handler.remove_on_drop(false));
    }
    let handler = SocketHandler::with_support("polychat", NameSupport::OnlyNamespaced);
    assert!(!handler.remove_on_drop(true));
    assert!(!handler.remove_on_drop(false));
}

#[test]
fn endpoint_name_resolves_by_platform_support() {
    assert_eq!(socket_name_with("abc1234", NameSupport::OnlyPaths), "/tmp/abc1234.sock");
    assert_eq!(socket_name_with("abc1234", NameSupport::Both), "/tmp/abc1234.sock");
    assert_eq!(socket_name_with("abc1234", NameSupport::OnlyNamespaced), "@abc1234.sock");
    assert_eq!(socket_name_with("", NameSupport::OnlyNamespaced), "@.sock");
}

#[test]
fn endpoint_name_resolves_to_one_name_on_this_platform() {
    let handler = SocketHandler::new("abc1234");
    let expected = match handler.get_support() {
        NameSupport::OnlyNamespaced => "@abc1234.sock",
        NameSupport::OnlyPaths | NameSupport::Both => "/tmp/abc1234.sock",
    };
    assert_eq!(handler.get_socket_name(), expected);
    assert_eq!(get_socket_name("abc1234"), expected);
    assert_eq!(get_socket_name("abc1234"), get_socket_name("abc1234"));
    assert_ne!(get_socket_name("abc1234"), get_socket_name("abc1235"));
    assert_ne!(get_socket_name("abc1234"), "abc1234");
}

#[test]
fn minted_endpoint_names_are_seven_letters_and_digits() {
    let mut seen = Vec::new();
    for _ in 0..50 {
        let id = generate_random_ipc_id();
        assert_eq!(id.chars().count(), 7);
        assert!(id.chars().all(|c| c.is_ascii_alphanumeric()), "{}", id);
        assert!(is_valid_endpoint_id(&id));
        seen.push(id);
    }
    seen.sort();
    seen.dedup();
    assert!(seen.len() > 1);
}

#[test]
fn endpoint_name_validation() {
    assert!(is_valid_endpoint_id("abc1234"));
    assert!(is_valid_endpoint_id("ZZZZZZZ"));
    assert!(is_valid_endpoint_id("0000000"));
    assert!(!is_valid_endpoint_id("abc123"));
    assert!(!is_valid_endpoint_id("abc12345"));
    assert!(!is_valid_endpoint_id(""));
    assert!(!is_valid_endpoint_id("abc_123"));
    assert!(!is_valid_endpoint_id("abc 123"));
    assert!(!is_valid_endpoint_id("abc123\u{e9}"));
    assert!(is_alphanumeric_char('a') && is_alphanumeric_char('z'));
    assert!(is_alphanumeric_char('A') && is_alphanumeric_char('Z'));
    assert!(is_alphanumeric_char('0') && is_alphanumeric_char('9'));
    for c in ['/', ':', '@', '[', '`', '{', ' ', '\u{e9}'] {
        assert!(!is_alphanumeric_char(c), "{}", c);
    }
}

#[test]
fn an_endpoint_accepts_once_and_then_uses_what_it_holds() {
    let mut handler = SocketHandler::with_support("abc1234", NameSupport::OnlyNamespaced);
    assert_eq!(handler.get_socket_name(), "@abc1234.sock");
    assert_eq!(handler.child_arguments(), vec!["abc1234".to_string()]);
    assert_eq!(handler.update_owned_split(), AttachStep::AcceptAndSplit);

    handler.get_connection(false);
    assert!(!handler.attached());
    assert_eq!(handler.update_owned_split(), AttachStep::AcceptAndSplit);

    handler.get_connection(true);
    assert!(handler.attached());
    assert_eq!(handler.update_owned_split(), AttachStep::UseCached);
    assert_eq!(handler.update_owned_split(), AttachStep::UseCached);
    assert_eq!(handler.get_socket_name(), "@abc1234.sock");
}

use hoptodesk_launch::lang::en::english_text;

#[test]
fn english_texts() {
    assert_eq!(english_text("desk_tip"), Some("Your desktop can be accessed with this ID and password."));
    assert_eq!(english_text("connecting_status_short"), Some("Connecting..."));
    assert_eq!(
        english_text("config_acc"),
        Some("Enable the \"Accessibility\" permission to use screen share.")
    );
    assert_eq!(english_text("Wrong credentials"), Some("Wrong username or password"));
    assert_eq!(english_text("missing_key"), None);
    assert_eq!(english_text(""), None);
}

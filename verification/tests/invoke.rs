use hoptodesk_launch::invoke::{
    after_link_sent, core_main_invoke_new_connection, new_connection_link, try_send_by_dbus,
    InvokeError,
};

fn strings(v: &[&str]) -> Vec<String> {
    v.iter().map(|s| s.to_string()).collect()
}

#[test]
fn link_for_a_peer() {
    let args = strings(&["client", "--connect", "123456"]);
    assert_eq!(new_connection_link(&args, ".hoptodesk"), Ok("hoptodesk://connection/new/123456".to_string()));
    let args = strings(&["client", "--play", "9"]);
    assert_eq!(new_connection_link(&args, ".x"), Ok("hoptodesk://connection/new/9".to_string()));
}

#[test]
fn link_with_a_switch_uuid() {
    let args = strings(&["client", "--connect", "1", "--switch_uuid", "u-1"]);
    assert_eq!(new_connection_link(&args, ".app"), Ok("hoptodesk://connection/new/1?switch_uuid=u-1".to_string()));
    let args = strings(&["client", "--connect", "1", "--switch_uuid", "a", "--switch_uuid", "b"]);
    assert_eq!(new_connection_link(&args, ".app"), Ok("hoptodesk://connection/new/1?switch_uuid=b".to_string()));
    let args = strings(&["client", "--connect", "1", "--switch_uuid", "a", "--switch_uuid"]);
    assert_eq!(new_connection_link(&args, ".app"), Ok("hoptodesk://connection/new/1".to_string()));
    let args = strings(&["client", "--connect", "1", "--switch_uuid", ""]);
    assert_eq!(new_connection_link(&args, ".app"), Ok("hoptodesk://connection/new/1?switch_uuid=".to_string()));
}

#[test]
fn extension_is_removed_from_the_peer() {
    let args = strings(&["client", "--connect", "123.app"]);
    assert_eq!(new_connection_link(&args, ".app"), Ok("hoptodesk://connection/new/123".to_string()));
    let args = strings(&["client", "--connect", "1.app2.app"]);
    assert_eq!(new_connection_link(&args, ".app"), Ok("hoptodesk://connection/new/12".to_string()));
    let args = strings(&["client", "--connect", "1.app2"]);
    assert_eq!(new_connection_link(&args, ".app"), Ok("hoptodesk://connection/new/1.app2".to_string()));
}

#[test]
fn errors() {
    assert_eq!(new_connection_link(&strings(&["client", "--rdp", "1"]), ".a"), Err(InvokeError::NoConnectionRequest));
    assert_eq!(new_connection_link(&strings(&["client", "--connect"]), ".a"), Err(InvokeError::EmptyPeerId));
    assert_eq!(new_connection_link(&strings(&["client", "--connect", ""]), ".a"), Err(InvokeError::EmptyPeerId));
    assert_eq!(new_connection_link(&Vec::new(), ".a"), Err(InvokeError::NoConnectionRequest));
}

#[test]
fn application_name_is_lowercased() {
    let args = strings(&["client", "--connect", "42.hoptodesk"]);
    assert_eq!(
        core_main_invoke_new_connection(&args, "HopToDesk"),
        Ok("hoptodesk://connection/new/42".to_string())
    );
    let args = strings(&["client", "--connect", "42.HopToDesk"]);
    assert_eq!(
        core_main_invoke_new_connection(&args, "HopToDesk"),
        Ok("hoptodesk://connection/new/42.HopToDesk".to_string())
    );
}

#[test]
fn after_sending() {
    assert_eq!(after_link_sent(true), None);
    assert_eq!(after_link_sent(false), Some(Vec::new()));
    assert_eq!(try_send_by_dbus(Ok(())), None);
    assert_eq!(try_send_by_dbus(Err("no bus".to_string())), Some(Vec::new()));
}

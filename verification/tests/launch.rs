use hoptodesk_launch::launch::{
    apply_setup, dbus_link, first_arg_is, gui_args, has_arg, init_plugins, is_version_request,
    log_name, needs_autostart_check, needs_elevation, scan_args, starts_portable_service,
    LaunchFlags, Os, PluginAction, Target,
};

fn strings(v: &[&str]) -> Vec<String> {
    v.iter().map(|s| s.to_string()).collect()
}

fn target(os: Os, flutter: bool) -> Target {
    Target { os, flutter, plugin_framework: false }
}

fn no_flags() -> LaunchFlags {
    LaunchFlags { elevate: false, run_as_system: false, quick_support: false, invoke_new_connection: false }
}

#[test]
fn scan_consumes_launch_flags_and_keeps_order() {
    let raw = strings(&["client.exe", "--elevate", "--connect", "--run-as-system", "123", "--quick_support"]);
    let s = scan_args(&target(Os::Windows, false), &raw);
    assert_eq!(s.exe, "client.exe");
    assert_eq!(s.args, strings(&["--connect", "123"]));
    assert!(s.flags.elevate && s.flags.run_as_system && s.flags.quick_support);
    assert!(!s.flags.invoke_new_connection);
}

#[test]
fn scan_notes_connection_requests_only_for_flutter() {
    let raw = strings(&["client", "--play", "42"]);
    let f = scan_args(&target(Os::Linux, true), &raw);
    assert!(f.flags.invoke_new_connection);
    assert_eq!(f.args, strings(&["--play", "42"]));
    let s = scan_args(&target(Os::Linux, false), &raw);
    assert!(!s.flags.invoke_new_connection);
    for request in ["--connect", "--file-transfer", "--port-forward", "--rdp"] {
        let raw = strings(&["client", request]);
        assert!(scan_args(&target(Os::MacOs, true), &raw).flags.invoke_new_connection);
    }
}

#[test]
fn scan_ignores_flags_in_the_executable_position() {
    let s = scan_args(&target(Os::Linux, true), &strings(&["--elevate"]));
    assert_eq!(s.exe, "--elevate");
    assert!(s.args.is_empty());
    assert!(!s.flags.elevate);
}

#[test]
fn scan_of_an_empty_command_line() {
    let s = scan_args(&target(Os::Linux, false), &Vec::new());
    assert_eq!(s.exe, "");
    assert!(s.args.is_empty());
    assert_eq!(s.flags, no_flags());
}

#[test]
fn setup_click_on_windows_installs() {
    let r = apply_setup(&target(Os::Windows, true), Vec::new(), true);
    assert!(r.click_setup);
    assert_eq!(r.args, strings(&["--install"]));
    assert_eq!(r.gui_args, strings(&["--install"]));
    let r = apply_setup(&target(Os::Linux, true), Vec::new(), true);
    assert!(!r.click_setup);
    assert!(r.args.is_empty() && r.gui_args.is_empty());
    let r = apply_setup(&target(Os::Windows, true), strings(&["--cm"]), true);
    assert!(!r.click_setup);
    assert_eq!(r.args, strings(&["--cm"]));
}

#[test]
fn noinstall_clears_the_arguments() {
    let r = apply_setup(&target(Os::Windows, false), strings(&["--server", "--noinstall"]), true);
    assert!(r.args.is_empty());
    assert!(r.gui_args.is_empty());
    assert!(has_arg(&strings(&["a", "--noinstall"]), "--noinstall"));
    assert!(!has_arg(&strings(&["a", "--noinstall2"]), "--noinstall"));
}

#[test]
fn version_request() {
    assert!(is_version_request(&strings(&["--version"])));
    assert!(!is_version_request(&strings(&["--server", "--version"])));
    assert!(!is_version_request(&Vec::new()));
    assert!(first_arg_is(&strings(&["--cm"]), "--cm"));
}

#[test]
fn log_names() {
    assert_eq!(log_name(&strings(&["--server"])), "server");
    assert_eq!(log_name(&strings(&["--cm-no-ui"])), "cm-no-ui");
    assert_eq!(log_name(&strings(&["--"])), "");
    assert_eq!(log_name(&strings(&["server"])), "");
    assert_eq!(log_name(&Vec::new()), "");
}

#[test]
fn log_name_never_has_two_dashes() {
    for a in ["---x", "----tray--", "--a---b----c", "-----"] {
        let name = log_name(&strings(&[a]));
        assert!(!name.contains("--"), "{name}");
    }
    assert_eq!(log_name(&strings(&["--a---b"])), "a-b");
}

#[test]
fn dbus_links_on_linux_flutter_only() {
    let args = strings(&["hoptodesk://connection/new/1"]);
    assert_eq!(dbus_link(&target(Os::Linux, true), &args), Some(args[0].clone()));
    assert_eq!(dbus_link(&target(Os::Linux, false), &args), None);
    assert_eq!(dbus_link(&target(Os::Windows, true), &args), None);
    assert_eq!(dbus_link(&target(Os::Linux, true), &strings(&["--connect"])), None);
    assert_eq!(dbus_link(&target(Os::Linux, true), &strings(&["hoptodesk:x"])), Some("hoptodesk:x".to_string()));
}

#[test]
fn windows_start_rules() {
    let w = target(Os::Windows, false);
    let quick = LaunchFlags { quick_support: true, ..no_flags() };
    assert!(starts_portable_service(&w, false, &Vec::new(), &quick));
    assert!(!starts_portable_service(&w, true, &Vec::new(), &quick));
    assert!(!starts_portable_service(&w, false, &strings(&["--cm"]), &quick));
    assert!(!starts_portable_service(&w, false, &Vec::new(), &LaunchFlags { elevate: true, ..quick }));
    assert!(!starts_portable_service(&target(Os::Linux, false), false, &Vec::new(), &quick));
    assert!(needs_elevation(&w, false, &LaunchFlags { elevate: true, ..no_flags() }));
    assert!(needs_elevation(&w, false, &LaunchFlags { run_as_system: true, ..no_flags() }));
    assert!(!needs_elevation(&w, true, &LaunchFlags { elevate: true, ..no_flags() }));
    assert!(!needs_elevation(&w, false, &no_flags()));
    assert!(!needs_elevation(&target(Os::MacOs, false), false, &LaunchFlags { elevate: true, ..no_flags() }));
}

#[test]
fn autostart_check_on_linux() {
    let l = target(Os::Linux, false);
    assert!(needs_autostart_check(&l, &Vec::new(), true, false));
    assert!(!needs_autostart_check(&l, &Vec::new(), true, true));
    assert!(!needs_autostart_check(&l, &Vec::new(), false, false));
    assert!(!needs_autostart_check(&l, &strings(&["--cm"]), true, false));
    assert!(!needs_autostart_check(&target(Os::Windows, false), &Vec::new(), true, false));
}

#[test]
fn plugin_actions() {
    let p = Target { os: Os::Linux, flutter: true, plugin_framework: true };
    assert_eq!(init_plugins(&p, &Vec::new(), true), PluginAction::Load);
    assert_eq!(init_plugins(&p, &strings(&["--server"]), true), PluginAction::Load);
    assert_eq!(init_plugins(&p, &strings(&["--server"]), false), PluginAction::Nothing);
    assert_eq!(init_plugins(&p, &strings(&["--service"]), true), PluginAction::RemoveUninstalled);
    assert_eq!(init_plugins(&p, &strings(&["--cm"]), true), PluginAction::Nothing);
    assert_eq!(init_plugins(&target(Os::Linux, true), &Vec::new(), true), PluginAction::Nothing);
}

#[test]
fn gui_arguments() {
    let setup = apply_setup(&target(Os::Windows, true), Vec::new(), true);
    assert_eq!(gui_args(&target(Os::Windows, true), setup.args, setup.gui_args), strings(&["--install"]));
    let setup = apply_setup(&target(Os::Linux, false), strings(&["--cm"]), false);
    assert_eq!(gui_args(&target(Os::Linux, false), setup.args, setup.gui_args), strings(&["--cm"]));
    let setup = apply_setup(&target(Os::Linux, true), strings(&["--cm"]), false);
    assert!(gui_args(&target(Os::Linux, true), setup.args, setup.gui_args).is_empty());
}

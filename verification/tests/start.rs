use hoptodesk_launch::command::Command;
use hoptodesk_launch::launch::{Os, PluginAction, Target};
use hoptodesk_launch::start::{Action, Reply, Start, Transport};

fn strings(v: &[&str]) -> Vec<String> {
    v.iter().map(|s| s.to_string()).collect()
}

/// Runs a start to its end, answering questions with `answer`; returns the
/// actions in order.
fn run(target: Target, raw: &[&str], answer: impl Fn(&Action) -> bool) -> Vec<Action> {
    let mut start = Start::new(target, strings(raw), "HopToDesk".to_string());
    let mut reply = Reply::Ack;
    let mut actions = Vec::new();
    for _ in 0..64 {
        actions.push(start.step(reply));
        match actions.last().unwrap() {
            Action::Finish(_) | Action::Exit | Action::MissingLink => return actions,
            a => reply = Reply::Answer(answer(a)),
        }
    }
    panic!("the start did not end: {actions:?}");
}

fn last(actions: &[Action]) -> &Action {
    actions.last().unwrap()
}

const LINUX: Target = Target { os: Os::Linux, flutter: false, plugin_framework: false };
const LINUX_FLUTTER: Target = Target { os: Os::Linux, flutter: true, plugin_framework: false };
const WINDOWS: Target = Target { os: Os::Windows, flutter: false, plugin_framework: false };
const WINDOWS_FLUTTER: Target = Target { os: Os::Windows, flutter: true, plugin_framework: false };

#[test]
fn clicked_setup_gives_flutter_install() {
    let actions = run(WINDOWS_FLUTTER, &["setup.exe"], |a| matches!(a, Action::AskIsSetup(_)));
    assert!(actions.contains(&Action::AskIsSetup("setup.exe".to_string())));
    assert_eq!(last(&actions), &Action::Finish(Some(strings(&["--install"]))));
    let actions = run(WINDOWS_FLUTTER, &["client.exe"], |_| false);
    assert_eq!(last(&actions), &Action::Finish(Some(Vec::new())));
}

#[test]
fn flutter_results_are_small() {
    for raw in [&["c", "--cm"][..], &["c", "--connect", "hoptodesk://connect/1/pw"][..], &["c", "--uninstall-service"][..]] {
        let actions = run(LINUX_FLUTTER, raw, |_| false);
        assert_eq!(last(&actions), &Action::Finish(Some(Vec::new())), "{raw:?}");
    }
}

#[test]
fn first_steps_without_arguments() {
    let actions = run(LINUX, &["c"], |a| matches!(a, Action::AskServerRunning));
    assert_eq!(
        actions[..4],
        [Action::AskServerRunning, Action::AskTrayRunning, Action::CheckAutostart, Action::RegisterBreakdownHandler]
    );
    assert!(actions.contains(&Action::InitLog(String::new())));
    assert!(actions.contains(&Action::Run(Command::BackgroundServer, Vec::new())));
    assert_eq!(last(&actions), &Action::Finish(Some(Vec::new())));
}

#[test]
fn version_stops() {
    let actions = run(LINUX, &["c", "--version"], |_| false);
    assert_eq!(actions[actions.len() - 2..], [Action::PrintVersion, Action::Finish(None)]);
    let actions = run(LINUX, &["c", "--noinstall", "--version"], |_| false);
    assert!(!actions.contains(&Action::PrintVersion));
}

#[test]
fn new_connection_requests() {
    let sent = run(LINUX_FLUTTER, &["c", "--connect", "123.hoptodesk"], |_| true);
    assert!(sent.contains(&Action::SendNewConnection(Transport::SessionBus, "hoptodesk://connection/new/123".to_string())));
    let windows = run(WINDOWS_FLUTTER, &["c", "--play", "7"], |_| true);
    assert!(windows.contains(&Action::SendNewConnection(Transport::WindowMessage, "hoptodesk://connection/new/7".to_string())));
    let mac = run(Target { os: Os::MacOs, flutter: true, plugin_framework: false }, &["c", "--play", "7"], |_| false);
    assert!(mac.contains(&Action::SendNewConnection(Transport::UrlScheme, "hoptodesk://connection/new/7".to_string())));
    assert_eq!(last(&mac), &Action::Finish(Some(Vec::new())));
    assert_eq!(last(&sent), &Action::Finish(None));
    let failed = run(LINUX_FLUTTER, &["c", "--connect", "123"], |_| false);
    assert_eq!(last(&failed), &Action::Finish(Some(Vec::new())));
    let missing = run(LINUX_FLUTTER, &["c", "--connect"], |_| false);
    assert_eq!(missing[missing.len() - 2..], [Action::ReportMissingPeer, Action::Finish(None)]);
    assert!(!missing.iter().any(|a| matches!(a, Action::SendNewConnection(..))));
}

#[test]
fn links_over_the_bus() {
    let actions = run(LINUX_FLUTTER, &["c", "hoptodesk://connection/new/1"], |_| false);
    assert!(actions.contains(&Action::SendOverBus("hoptodesk://connection/new/1".to_string())));
    assert_eq!(last(&actions), &Action::Finish(Some(Vec::new())));
    let actions = run(LINUX_FLUTTER, &["c", "hoptodesk://connection/new/1"], |_| true);
    assert_eq!(last(&actions), &Action::Finish(None));
}

#[test]
fn connect_link_stores_and_opens_the_gui() {
    let actions = run(LINUX, &["c", "--connect", "hoptodesk://connect/1/pw/ABCDEFGHIJKLMNOP/tok"], |_| false);
    let n = actions.len();
    assert_eq!(
        actions[n - 4..],
        [
            Action::StoreTeamId("ABCDEFGHIJKLMNOP".to_string()),
            Action::StoreToken("tok".to_string()),
            Action::Run(Command::Gui, strings(&["--connect", "1", "pw"])),
            Action::Finish(Some(strings(&["--connect", "1", "pw"]))),
        ]
    );
    let actions = run(WINDOWS, &["c", "--connect", "hoptodesk://connect/1"], |_| true);
    assert!(actions.contains(&Action::PrepareTeamIdDir));
}

#[test]
fn sync_link_sets_the_address_and_exits() {
    let actions = run(LINUX, &["c", "--connect", "hoptodesk://sync/abc"], |_| false);
    assert_eq!(
        actions[actions.len() - 2..],
        [Action::SetApiUrl("https://api.hoptodesk.com/?n=abc".to_string()), Action::Exit]
    );
}

#[test]
fn connect_without_a_value_fails() {
    assert_eq!(last(&run(LINUX, &["c", "--connect"], |_| false)), &Action::MissingLink);
}

#[test]
fn tray_command() {
    let running = run(LINUX, &["c", "--tray"], |_| true);
    assert_eq!(last(&running), &Action::Finish(None));
    let absent = run(LINUX, &["c", "--tray"], |_| false);
    assert_eq!(absent[absent.len() - 2..], [Action::Run(Command::Tray, strings(&["--tray"])), Action::Exit]);
}

#[test]
fn windows_elevation_and_portable_service() {
    let actions = run(WINDOWS, &["c", "--elevate"], |_| false);
    assert_eq!(
        actions[actions.len() - 2..],
        [Action::Elevate { click_setup: false, elevate: true, run_as_system: false }, Action::Finish(None)]
    );
    let installed = run(WINDOWS, &["c", "--elevate"], |a| matches!(a, Action::AskInstalled));
    assert_eq!(last(&installed), &Action::Finish(Some(Vec::new())));
    let quick = run(WINDOWS, &["c", "--quick_support"], |_| false);
    assert!(quick.contains(&Action::StartPortableService));
    let portable = run(WINDOWS, &["c", "--portable-service"], |_| false);
    assert_eq!(
        portable[portable.len() - 2..],
        [Action::Elevate { click_setup: false, elevate: false, run_as_system: false }, Action::Finish(None)]
    );
}

#[test]
fn password_needs_administrative_privileges() {
    let root = run(LINUX, &["c", "--password", "pw"], |_| true);
    assert_eq!(
        root[root.len() - 3..],
        [Action::AskIsRoot, Action::Run(Command::SetPassword, strings(&["--password", "pw"])), Action::Finish(None)]
    );
    let user = run(LINUX, &["c", "--password", "pw"], |_| false);
    assert_eq!(user[user.len() - 2..], [Action::ReportNotRoot, Action::Finish(None)]);
}

#[test]
fn commands_and_plugins() {
    assert_eq!(last(&run(LINUX, &["c", "--server"], |_| false)), &Action::Finish(None));
    assert_eq!(last(&run(LINUX, &["c", "--get-id"], |_| false)), &Action::Exit);
    assert_eq!(last(&run(LINUX, &["c", "--cm"], |_| false)), &Action::Finish(Some(strings(&["--cm"]))));
    let plugins = Target { os: Os::MacOs, flutter: true, plugin_framework: true };
    let actions = run(plugins, &["c", "--server"], |_| true);
    assert!(actions.contains(&Action::Plugins(PluginAction::Load)));
    assert!(actions.contains(&Action::SetSoftwareRender(false)) == false);
    assert_eq!(last(&actions), &Action::Finish(Some(Vec::new())));
    let render = run(LINUX_FLUTTER, &["c", "--cm"], |a| matches!(a, Action::AskSoftwareRender));
    assert!(render.contains(&Action::SetSoftwareRender(true)));
}

#[test]
fn connect_link_run_is_exact() {
    let line = "hoptodesk://connect/42/pw/ABCDEFGHIJKLMNOP/tok/en";
    let actions = run(LINUX, &["c", "--connect", line], |_| false);
    assert_eq!(
        actions,
        [
            Action::RegisterBreakdownHandler,
            Action::InitLog("connect".to_string()),
            Action::LogArgs(strings(&["--connect", line])),
            Action::StoreTeamId("ABCDEFGHIJKLMNOP".to_string()),
            Action::StoreToken("tok/en".to_string()),
            Action::Run(Command::Gui, strings(&["--connect", "42", "pw"])),
            Action::Finish(Some(strings(&["--connect", "42", "pw"]))),
        ]
    );
    let short = run(WINDOWS, &["c", "--connect", "hoptodesk://connect/42/pw/SHORT/tok"], |_| true);
    assert_eq!(
        short,
        [
            Action::RegisterBreakdownHandler,
            Action::InitLog("connect".to_string()),
            Action::AskInstalled,
            Action::LogArgs(strings(&["--connect", "hoptodesk://connect/42/pw/SHORT/tok"])),
            Action::PrepareTeamIdDir,
            Action::StoreToken("tok".to_string()),
            Action::Run(Command::Gui, strings(&["--connect", "42", "pw"])),
            Action::Finish(Some(strings(&["--connect", "42", "pw"]))),
        ]
    );
}

#[test]
fn update_on_windows() {
    let installed = run(WINDOWS, &["c", "--update"], |_| true);
    let n = installed.len();
    assert_eq!(
        installed[n - 8..],
        [
            Action::AskUpdatePath,
            Action::AskInstalled,
            Action::ReplaceInstalled,
            Action::EndClients,
            Action::ReplaceAtUpdatePath,
            Action::StartService,
            Action::RunUpdated,
            Action::Exit,
        ]
    );
    let plain = run(WINDOWS, &["c", "--update"], |a| matches!(a, Action::AskUpdatePath));
    let n = plain.len();
    assert_eq!(
        plain[n - 5..],
        [Action::AskUpdatePath, Action::AskInstalled, Action::EndClients, Action::RunUpdated, Action::Exit]
    );
    let no_path = run(WINDOWS, &["c", "--update"], |a| !matches!(a, Action::AskUpdatePath));
    assert_eq!(no_path[no_path.len() - 2..], [Action::AskUpdatePath, Action::Exit]);
}

#[test]
fn update_elsewhere_ends_the_process() {
    let actions = run(LINUX, &["c", "--update"], |_| true);
    assert_eq!(actions[actions.len() - 2..], [Action::LogArgs(strings(&["--update"])), Action::Exit]);
}

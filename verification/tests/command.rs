use hoptodesk_launch::command::{classify, flow_after, Command, Flow};
use hoptodesk_launch::launch::{Os, Target};
use hoptodesk_launch::links::rewrite_deep_link;

fn strings(v: &[&str]) -> Vec<String> {
    v.iter().map(|s| s.to_string()).collect()
}

const LINUX: Target = Target { os: Os::Linux, flutter: false, plugin_framework: false };
const WINDOWS: Target = Target { os: Os::Windows, flutter: false, plugin_framework: false };
const PLUGINS: Target = Target { os: Os::MacOs, flutter: true, plugin_framework: true };

#[test]
fn no_argument_or_empty_link_starts_the_server() {
    assert_eq!(classify(&LINUX, &Vec::new()), Command::BackgroundServer);
    assert_eq!(classify(&LINUX, &strings(&["hoptodesk:///"])), Command::BackgroundServer);
    assert_eq!(classify(&WINDOWS, &strings(&["hoptodesk://", "--uninstall"])), Command::BackgroundServer);
}

#[test]
fn windows_only_commands() {
    assert_eq!(classify(&WINDOWS, &strings(&["--uninstall"])), Command::Uninstall);
    assert_eq!(classify(&WINDOWS, &strings(&["--after-install"])), Command::AfterInstall);
    assert_eq!(classify(&WINDOWS, &strings(&["--before-uninstall"])), Command::BeforeUninstall);
    assert_eq!(classify(&WINDOWS, &strings(&["--extract", "dir"])), Command::Extract);
    assert_eq!(classify(&WINDOWS, &strings(&["--tray"])), Command::WindowsTray);
    assert_eq!(classify(&WINDOWS, &strings(&["--portable-service"])), Command::PortableService);
    assert_eq!(classify(&LINUX, &strings(&["--uninstall"])), Command::Gui);
    assert_eq!(classify(&LINUX, &strings(&["--tray"])), Command::Tray);
}

#[test]
fn silent_install_options() {
    let c = |a: &[&str]| classify(&WINDOWS, &strings(a));
    assert_eq!(c(&["--silent-install"]), Command::SilentInstall { shortcuts: true, startup: false, no_startup: false });
    assert_eq!(c(&["--silent-install", "x"]), Command::SilentInstall { shortcuts: true, startup: true, no_startup: false });
    assert_eq!(c(&["--silent-install-noshortcuts"]), Command::SilentInstall { shortcuts: false, startup: false, no_startup: false });
    assert_eq!(c(&["--silent-install-noshortcuts", "--nostartup"]), Command::SilentInstall { shortcuts: false, startup: false, no_startup: true });
    assert_eq!(c(&["--silent-install-noshortcuts", "x"]), Command::SilentInstall { shortcuts: false, startup: true, no_startup: false });
    assert_eq!(c(&["--silent-install-noshortcuts", "--nostartup", "y"]), Command::SilentInstall { shortcuts: false, startup: true, no_startup: true });
}

#[test]
fn commands_on_every_system() {
    let c = |a: &[&str]| classify(&LINUX, &strings(a));
    assert_eq!(c(&["--remove", "old.exe"]), Command::Remove);
    assert_eq!(c(&["--remove"]), Command::Gui);
    assert_eq!(c(&["--update"]), Command::Update);
    assert_eq!(c(&["--install-service"]), Command::InstallService);
    assert_eq!(c(&["--uninstall-service"]), Command::UninstallService);
    assert_eq!(c(&["--service"]), Command::Service);
    assert_eq!(c(&["--server"]), Command::Server);
    assert_eq!(c(&["--import-config", "a.toml"]), Command::ImportConfig);
    assert_eq!(c(&["--import-config"]), Command::Stop);
    assert_eq!(c(&["--password", "pw"]), Command::SetPassword);
    assert_eq!(c(&["--password", "pw", "x"]), Command::Stop);
    assert_eq!(c(&["--get-id"]), Command::GetId);
    assert_eq!(c(&["--check-hwcodec-config"]), Command::CheckHwcodecConfig);
    assert_eq!(c(&["--cm"]), Command::ConnectionManager);
    assert_eq!(c(&["--cm-no-ui"]), Command::ConnectionManagerNoUi);
    assert_eq!(c(&["--connect", "1"]), Command::Gui);
    assert_eq!(c(&["--plugin-install", "p"]), Command::Gui);
}

#[test]
fn plugin_commands() {
    let c = |a: &[&str]| classify(&PLUGINS, &strings(a));
    assert_eq!(c(&["--plugin-install", "p"]), Command::PluginReinstall);
    assert_eq!(c(&["--plugin-install", "p", "https://x"]), Command::PluginInstallFromUrl);
    assert_eq!(c(&["--plugin-install"]), Command::Stop);
    assert_eq!(c(&["--plugin-uninstall", "p"]), Command::PluginUninstall);
    assert_eq!(c(&["--plugin-uninstall"]), Command::Stop);
}

#[test]
fn connect_lines_open_the_gui() {
    for link in ["hoptodesk://connect/1/pw", "hoptodesk://filetransfer/2", "hoptodesk:///", "plain-id"] {
        for target in [LINUX, WINDOWS, PLUGINS] {
            let r = rewrite_deep_link(strings(&["--connect", link]));
            assert_eq!(classify(&target, &r.args), Command::Gui);
        }
    }
}

#[test]
fn flows() {
    assert_eq!(flow_after(&LINUX, Command::BackgroundServer, false), Flow::OpenGui);
    assert_eq!(flow_after(&LINUX, Command::Tray, true), Flow::Stop);
    assert_eq!(flow_after(&LINUX, Command::Tray, false), Flow::Exit);
    assert_eq!(flow_after(&LINUX, Command::Update, false), Flow::Exit);
    assert_eq!(flow_after(&LINUX, Command::GetId, false), Flow::Exit);
    assert_eq!(flow_after(&LINUX, Command::Server, false), Flow::Stop);
    assert_eq!(flow_after(&WINDOWS, Command::Server, false), Flow::Stop);
    assert_eq!(flow_after(&PLUGINS, Command::Server, false), Flow::OpenGui);
    assert_eq!(flow_after(&LINUX, Command::UninstallService, false), Flow::OpenGui);
    assert_eq!(flow_after(&LINUX, Command::ConnectionManager, false), Flow::OpenGui);
    assert_eq!(flow_after(&LINUX, Command::ConnectionManagerNoUi, false), Flow::Stop);
    assert_eq!(flow_after(&LINUX, Command::Remove, false), Flow::Stop);
    assert_eq!(flow_after(&LINUX, Command::Gui, false), Flow::OpenGui);
    assert_eq!(flow_after(&LINUX, Command::Stop, false), Flow::Stop);
}

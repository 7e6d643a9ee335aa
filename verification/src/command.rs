//! The command that the first argument selects, and whether the client
//! goes on to its user interface afterwards.

use vstd::prelude::*;
use crate::launch::{Os, Target};
use crate::links::{is_empty_link, is_empty_uni_link, link_kind_of, rewritten_args, LinkKind};
use crate::text::{has_prefix, str_eq};

verus! {

/// What a command line asks the client to do. The arguments that a command
/// uses are read from the command line by position (`args[1]`, `args[2]`).
#[derive(Clone, Copy, Debug, PartialEq, Eq, Structural)]
pub enum Command {
    /// No argument, or an empty link: start the server in the background and
    /// open the user interface.
    BackgroundServer,
    /// Windows `--uninstall`.
    Uninstall,
    /// Windows `--after-install`.
    AfterInstall,
    /// Windows `--before-uninstall`.
    BeforeUninstall,
    /// Windows `--silent-install` (with desktop and start menu shortcuts) or
    /// `--silent-install-noshortcuts`; whether the client starts at login,
    /// and whether `--nostartup` was given.
    SilentInstall { shortcuts: bool, startup: bool, no_startup: bool },
    /// Windows `--extract <dir>`: extract the bundled resources.
    Extract,
    /// Windows `--tray`.
    WindowsTray,
    /// Windows `--portable-service`.
    PortableService,
    /// `--remove <file>`: remove a replaced executable.
    Remove,
    /// `--tray` (other systems): start the tray unless one runs.
    Tray,
    /// `--update`.
    Update,
    /// `--install-service`.
    InstallService,
    /// `--uninstall-service`.
    UninstallService,
    /// `--service`.
    Service,
    /// `--server`.
    Server,
    /// `--import-config <file>`.
    ImportConfig,
    /// `--password <password>`: set the permanent password.
    SetPassword,
    /// `--get-id`: print the id.
    GetId,
    /// `--check-hwcodec-config`.
    CheckHwcodecConfig,
    /// `--cm`: the connection manager.
    ConnectionManager,
    /// `--cm-no-ui`: the connection manager without a window.
    ConnectionManagerNoUi,
    /// `--plugin-install <id>`: install an uninstalled plugin again.
    PluginReinstall,
    /// `--plugin-install <id> <url>`.
    PluginInstallFromUrl,
    /// `--plugin-uninstall <id>`.
    PluginUninstall,
    /// Nothing to do, and stop.
    Stop,
    /// Nothing to do; open the user interface.
    Gui,
}

/// The command that a command line selects.
pub open spec fn command_of(target: Target, args: Seq<Seq<char>>) -> Command {
    if args.len() == 0 || is_empty_link(args[0]) {
        Command::BackgroundServer
    } else {
        let a = args[0];
        let n = args.len();
        if target.os == Os::Windows && a == "--uninstall"@ {
            Command::Uninstall
        } else if target.os == Os::Windows && a == "--after-install"@ {
            Command::AfterInstall
        } else if target.os == Os::Windows && a == "--before-uninstall"@ {
            Command::BeforeUninstall
        } else if target.os == Os::Windows && a == "--silent-install"@ {
            Command::SilentInstall { shortcuts: true, startup: n > 1, no_startup: false }
        } else if target.os == Os::Windows && a == "--silent-install-noshortcuts"@ {
            Command::SilentInstall {
                shortcuts: false,
                startup: n > 2 || (n > 1 && args[1] != "--nostartup"@),
                no_startup: n > 1 && args[1] == "--nostartup"@,
            }
        } else if target.os == Os::Windows && a == "--extract"@ {
            Command::Extract
        } else if target.os == Os::Windows && a == "--tray"@ {
            Command::WindowsTray
        } else if target.os == Os::Windows && a == "--portable-service"@ {
            Command::PortableService
        } else if a == "--remove"@ {
            if n == 2 {
                Command::Remove
            } else {
                Command::Gui
            }
        } else if a == "--tray"@ {
            Command::Tray
        } else if a == "--update"@ {
            Command::Update
        } else if a == "--install-service"@ {
            Command::InstallService
        } else if a == "--uninstall-service"@ {
            Command::UninstallService
        } else if a == "--service"@ {
            Command::Service
        } else if a == "--server"@ {
            Command::Server
        } else if a == "--import-config"@ {
            if n == 2 {
                Command::ImportConfig
            } else {
                Command::Stop
            }
        } else if a == "--password"@ {
            if n == 2 {
                Command::SetPassword
            } else {
                Command::Stop
            }
        } else if a == "--get-id"@ {
            Command::GetId
        } else if a == "--check-hwcodec-config"@ {
            Command::CheckHwcodecConfig
        } else if a == "--cm"@ {
            Command::ConnectionManager
        } else if a == "--cm-no-ui"@ {
            Command::ConnectionManagerNoUi
        } else if target.flutter && target.plugin_framework && a == "--plugin-install"@ {
            if n == 2 {
                Command::PluginReinstall
            } else if n == 3 {
                Command::PluginInstallFromUrl
            } else {
                Command::Stop
            }
        } else if target.flutter && target.plugin_framework && a == "--plugin-uninstall"@ {
            if n == 2 {
                Command::PluginUninstall
            } else {
                Command::Stop
            }
        } else {
            Command::Gui
        }
    }
}

/// The command that a command line selects.
pub fn classify(target: &Target, args: &Vec<String>) -> (r: Command)
    ensures
        r == command_of(*target, args.deep_view()),
{
    if args.len() == 0 || is_empty_uni_link(args[0].as_str()) {
        return Command::BackgroundServer;
    }
    let a = args[0].as_str();
    let n = args.len();
    assert(a@ == args.deep_view()[0]);
    let windows = match target.os {
        Os::Windows => true,
        _ => false,
    };
    if windows && str_eq(a, "--uninstall") {
        Command::Uninstall
    } else if windows && str_eq(a, "--after-install") {
        Command::AfterInstall
    } else if windows && str_eq(a, "--before-uninstall") {
        Command::BeforeUninstall
    } else if windows && str_eq(a, "--silent-install") {
        Command::SilentInstall { shortcuts: true, startup: n > 1, no_startup: false }
    } else if windows && str_eq(a, "--silent-install-noshortcuts") {
        let no_startup = n > 1 && str_eq(args[1].as_str(), "--nostartup");
        assert(n > 1 ==> args[1]@ == args.deep_view()[1]);
        Command::SilentInstall {
            shortcuts: false,
            startup: n > 2 || (n > 1 && !no_startup),
            no_startup,
        }
    } else if windows && str_eq(a, "--extract") {
        Command::Extract
    } else if windows && str_eq(a, "--tray") {
        Command::WindowsTray
    } else if windows && str_eq(a, "--portable-service") {
        Command::PortableService
    } else if str_eq(a, "--remove") {
        if n == 2 {
            Command::Remove
        } else {
            Command::Gui
        }
    } else if str_eq(a, "--tray") {
        Command::Tray
    } else if str_eq(a, "--update") {
        Command::Update
    } else if str_eq(a, "--install-service") {
        Command::InstallService
    } else if str_eq(a, "--uninstall-service") {
        Command::UninstallService
    } else if str_eq(a, "--service") {
        Command::Service
    } else if str_eq(a, "--server") {
        Command::Server
    } else if str_eq(a, "--import-config") {
        if n == 2 {
            Command::ImportConfig
        } else {
            Command::Stop
        }
    } else if str_eq(a, "--password") {
        if n == 2 {
            Command::SetPassword
        } else {
            Command::Stop
        }
    } else if str_eq(a, "--get-id") {
        Command::GetId
    } else if str_eq(a, "--check-hwcodec-config") {
        Command::CheckHwcodecConfig
    } else if str_eq(a, "--cm") {
        Command::ConnectionManager
    } else if str_eq(a, "--cm-no-ui") {
        Command::ConnectionManagerNoUi
    } else if target.flutter && target.plugin_framework && str_eq(a, "--plugin-install") {
        if n == 2 {
            Command::PluginReinstall
        } else if n == 3 {
            Command::PluginInstallFromUrl
        } else {
            Command::Stop
        }
    } else if target.flutter && target.plugin_framework && str_eq(a, "--plugin-uninstall") {
        if n == 2 {
            Command::PluginUninstall
        } else {
            Command::Stop
        }
    } else {
        Command::Gui
    }
}

/// The arguments that a deep link leaves first name no command.
proof fn lemma_link_args_name_no_command(a: Seq<char>)
    requires
        a == "--connect"@ || a == "--file-transfer"@,
    ensures
        a != "--uninstall"@,
        a != "--after-install"@,
        a != "--before-uninstall"@,
        a != "--silent-install"@,
        a != "--silent-install-noshortcuts"@,
        a != "--extract"@,
        a != "--tray"@,
        a != "--portable-service"@,
        a != "--remove"@,
        a != "--update"@,
        a != "--install-service"@,
        a != "--uninstall-service"@,
        a != "--service"@,
        a != "--server"@,
        a != "--import-config"@,
        a != "--password"@,
        a != "--get-id"@,
        a != "--check-hwcodec-config"@,
        a != "--cm"@,
        a != "--cm-no-ui"@,
        a != "--plugin-install"@,
        a != "--plugin-uninstall"@,
{
    reveal_strlit("--connect");
    reveal_strlit("--file-transfer");
    reveal_strlit("--uninstall");
    reveal_strlit("--after-install");
    reveal_strlit("--before-uninstall");
    reveal_strlit("--silent-install");
    reveal_strlit("--silent-install-noshortcuts");
    reveal_strlit("--extract");
    reveal_strlit("--tray");
    reveal_strlit("--portable-service");
    reveal_strlit("--remove");
    reveal_strlit("--update");
    reveal_strlit("--install-service");
    reveal_strlit("--uninstall-service");
    reveal_strlit("--service");
    reveal_strlit("--server");
    reveal_strlit("--import-config");
    reveal_strlit("--password");
    reveal_strlit("--get-id");
    reveal_strlit("--check-hwcodec-config");
    reveal_strlit("--cm");
    reveal_strlit("--cm-no-ui");
    reveal_strlit("--plugin-install");
    reveal_strlit("--plugin-uninstall");
    assert(a[2] == 'c' || a[2] == 'f');
    assert(a.len() != "--check-hwcodec-config"@.len());
    assert(a.len() != "--cm"@.len());
    assert(a.len() != "--cm-no-ui"@.len());
}

/// A command line `--connect <link>` never selects a service, installer or
/// other command: once its deep link is read, the user interface opens (a
/// sync link ends the process before that).
pub proof fn lemma_connect_opens_gui(target: Target, args: Seq<Seq<char>>)
    requires
        args.len() >= 2,
        args[0] == "--connect"@,
        link_kind_of(args) != LinkKind::Sync,
    ensures
        command_of(target, rewritten_args(args)) == Command::Gui,
{
    reveal_strlit("hoptodesk://");
    reveal_strlit("--connect");
    reveal_strlit("--file-transfer");
    let r = rewritten_args(args);
    assert(r.len() >= 2);
    assert(r[0] == "--connect"@ || r[0] == "--file-transfer"@);
    assert(!has_prefix(r[0], "hoptodesk://"@)) by {
        if has_prefix(r[0], "hoptodesk://"@) {
            assert(r[0].take(12)[0] == r[0][0]);
        }
    }
    lemma_link_args_name_no_command(r[0]);
}

/// The shortcut options of a silent install: desktop icon and start menu
/// entry, or none.
pub fn silent_install_options(shortcuts: bool) -> (r: &'static str)
    ensures
        r@ == (if shortcuts {
            "desktopicon startmenu"@
        } else {
            ""@
        }),
{
    if shortcuts {
        "desktopicon startmenu"
    } else {
        ""
    }
}

/// How the start of the client ends after a command.
#[derive(Clone, Copy, Debug, PartialEq, Eq, Structural)]
pub enum Flow {
    /// Stop without opening the user interface.
    Stop,
    /// Open the user interface.
    OpenGui,
    /// End the process at once.
    Exit,
}

/// How the start ends after `cmd`. `tray_running` matters only for `Tray`:
/// when no tray runs, the command starts one and the process ends with it.
pub open spec fn flow_of(target: Target, cmd: Command, tray_running: bool) -> Flow {
    match cmd {
        Command::BackgroundServer => Flow::OpenGui,
        Command::Tray => if tray_running {
            Flow::Stop
        } else {
            Flow::Exit
        },
        Command::Update => Flow::Exit,
        Command::GetId => Flow::Exit,
        Command::UninstallService => Flow::OpenGui,
        Command::Server => if target.os == Os::Linux || target.os == Os::Windows {
            Flow::Stop
        } else {
            Flow::OpenGui
        },
        Command::ConnectionManager => Flow::OpenGui,
        Command::Gui => Flow::OpenGui,
        _ => Flow::Stop,
    }
}

/// How the start ends after `cmd`.
pub fn flow_after(target: &Target, cmd: Command, tray_running: bool) -> (r: Flow)
    ensures
        r == flow_of(*target, cmd, tray_running),
{
    match cmd {
        Command::BackgroundServer => Flow::OpenGui,
        Command::Tray => if tray_running {
            Flow::Stop
        } else {
            Flow::Exit
        },
        Command::Update => Flow::Exit,
        Command::GetId => Flow::Exit,
        Command::UninstallService => Flow::OpenGui,
        Command::Server => match target.os {
            Os::Linux | Os::Windows => Flow::Stop,
            _ => Flow::OpenGui,
        },
        Command::ConnectionManager => Flow::OpenGui,
        Command::Gui => Flow::OpenGui,
        _ => Flow::Stop,
    }
}

/// Only `--uninstall` itself, on Windows, uninstalls the client.
pub proof fn lemma_uninstall_only_by_name(target: Target, args: Seq<Seq<char>>)
    ensures
        command_of(target, args) == Command::Uninstall ==> target.os == Os::Windows && args.len()
            > 0 && args[0] == "--uninstall"@,
{
}

/// `--uninstall-service` uninstalls the service, on every system, and opens
/// the user interface afterwards.
pub proof fn lemma_uninstall_service(target: Target, tray_running: bool)
    ensures
        command_of(target, seq!["--uninstall-service"@]) == Command::UninstallService,
        flow_of(target, Command::UninstallService, tray_running) == Flow::OpenGui,
{
    reveal_strlit("hoptodesk://");
    reveal_strlit("--uninstall");
    reveal_strlit("--after-install");
    reveal_strlit("--before-uninstall");
    reveal_strlit("--silent-install");
    reveal_strlit("--silent-install-noshortcuts");
    reveal_strlit("--extract");
    reveal_strlit("--tray");
    reveal_strlit("--portable-service");
    reveal_strlit("--remove");
    reveal_strlit("--update");
    reveal_strlit("--install-service");
    reveal_strlit("--uninstall-service");
    let a = "--uninstall-service"@;
    assert(!is_empty_link(a)) by {
        assert(a.take(12)[0] != "hoptodesk://"@[0]);
    }
}

/// The user interface opens after a command exactly when the command
/// leaves the client running for it: the background server, the
/// connection manager, uninstalling the service, a command line with
/// nothing to do, and the server on a system other than Linux and Windows.
/// Every other command (the installer's commands, extracting, the tray,
/// updating, the services, importing, the password, the plugins) ends the
/// start without it.
pub proof fn lemma_gui_opens_only_after(target: Target, cmd: Command, tray_running: bool)
    ensures
        (flow_of(target, cmd, tray_running) == Flow::OpenGui) == (cmd == Command::BackgroundServer
            || cmd == Command::ConnectionManager || cmd == Command::UninstallService || cmd
            == Command::Gui || (cmd == Command::Server && target.os != Os::Linux && target.os
            != Os::Windows)),
        (flow_of(target, cmd, tray_running) == Flow::Exit) == (cmd == Command::Update || cmd
            == Command::GetId || (cmd == Command::Tray && !tray_running)),
{
}

/// A silent install, with or without shortcuts, ends the start without the
/// user interface.
pub proof fn lemma_silent_install_stops(
    target: Target,
    shortcuts: bool,
    startup: bool,
    no_startup: bool,
    tray_running: bool,
)
    ensures
        flow_of(target, Command::SilentInstall { shortcuts, startup, no_startup }, tray_running)
            == Flow::Stop,
{
}

/// The installer's commands, extraction, the Windows tray and the portable
/// service are only selected on Windows; the tray of other systems never
/// there; the plugin commands only with the Flutter interface and its
/// plugin framework; and no command is selected without an argument but the
/// background server.
pub proof fn lemma_commands_by_system(target: Target, args: Seq<Seq<char>>)
    ensures
        ({
            let c = command_of(target, args);
            &&& (c == Command::Uninstall || c == Command::AfterInstall || c
                == Command::BeforeUninstall || c is SilentInstall || c == Command::Extract || c
                == Command::WindowsTray || c == Command::PortableService) ==> target.os
                == Os::Windows
            &&& c == Command::Tray ==> target.os != Os::Windows
            &&& (c == Command::PluginReinstall || c == Command::PluginInstallFromUrl || c
                == Command::PluginUninstall) ==> target.flutter && target.plugin_framework
            &&& args.len() == 0 ==> c == Command::BackgroundServer
        }),
{
}

} // verus!

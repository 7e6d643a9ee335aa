//! The start of the client as a whole: a state machine that is given the
//! command line and the host's replies, and answers with the next thing to
//! do, until it ends with the arguments for the user interface, nothing, or
//! the end of the process.

pub mod runs;

use vstd::prelude::*;
use crate::command::{classify, command_of, flow_after, flow_of, Command, Flow};
use crate::invoke::{
    after_link_sent, core_main_invoke_new_connection, lowercase_of, new_connection_link_of,
    InvokeError,
};
use crate::launch::{
    apply_setup, dbus_link, dbus_link_of, first_arg_is, first_is, forwarded_args, gui_args,
    init_plugins, is_version_request, log_name, log_name_of, needs_autostart_check, needs_elevation,
    passes,
    passes_connection_request, plugin_action_of, scan_args, starts_portable_service, with_install,
    LaunchFlags, Os, PluginAction, Target,
};
use crate::links::{
    api_url_of, link_kind_of, rewrite_deep_link, rewritten_args, team_id_of, token_of, LinkKind,
};
use crate::text::opt_view;

verus! {

/// Where the start stands: each stage but `Begin` waits for the reply to
/// the action it was entered with.
#[derive(Clone, Copy, Debug, PartialEq, Eq, Structural)]
pub enum Stage {
    Begin,
    ServerAsked,
    TrayAsked,
    AutostartChecked,
    BreakdownRegistered,
    RenderAsked,
    RenderApplied,
    LinkSent,
    PeerReported,
    SetupAsked,
    VersionPrinted,
    LogStarted,
    BusSent,
    InstalledAsked,
    PortableStarted,
    Elevated,
    PluginsAsked,
    PluginsRun,
    ArgsLogged,
    LinkMissing,
    TeamDirPrepared,
    TeamIdStored,
    TokenStored,
    ApiUrlSet,
    CommandTrayAsked,
    RootAsked,
    CommandRun,
    UpdatePathAsked,
    UpdateInstalledAsked,
    InstalledReplaced,
    ClientsEnded,
    UpdatePathReplaced,
    ServiceStarted,
    UpdatedRun,
    Done,
}

/// The host's reply to the last action: the answer to a question, or an
/// acknowledgement that the action was carried out.
#[derive(Clone, Copy, Debug, PartialEq, Eq, Structural)]
pub enum Reply {
    Ack,
    Answer(bool),
}

/// The reply is a yes.
pub open spec fn yes(r: Reply) -> bool {
    match r {
        Reply::Answer(b) => b,
        Reply::Ack => false,
    }
}

/// How a new-connection link reaches the running client.
#[derive(Clone, Copy, Debug, PartialEq, Eq, Structural)]
pub enum Transport {
    /// The session bus (Linux).
    SessionBus,
    /// A message to the window of class [`FLUTTER_WINDOW_CLASS`] and title
    /// [`FLUTTER_WINDOW_TITLE`] (Windows).
    WindowMessage,
    /// The application's URL scheme (macOS).
    UrlScheme,
}

/// The window class that a new-connection message is sent to (Windows).
pub const FLUTTER_WINDOW_CLASS: &'static str = "FLUTTER_RUNNER_WIN32_WINDOW";

/// The window title that a new-connection message is sent to (Windows).
pub const FLUTTER_WINDOW_TITLE: &'static str = "HopToDesk";

/// The transport of new-connection links on `os`; none on other systems.
pub open spec fn transport_of(os: Os) -> Option<Transport> {
    match os {
        Os::Linux => Some(Transport::SessionBus),
        Os::Windows => Some(Transport::WindowMessage),
        Os::MacOs => Some(Transport::UrlScheme),
        Os::Other => None,
    }
}

/// The transport of new-connection links for `target`.
fn transport(target: &Target) -> (r: Option<Transport>)
    ensures
        r == transport_of(target.os),
{
    match target.os {
        Os::Linux => Some(Transport::SessionBus),
        Os::Windows => Some(Transport::WindowMessage),
        Os::MacOs => Some(Transport::UrlScheme),
        Os::Other => None,
    }
}

/// What the host is asked to do next.
#[derive(Debug, PartialEq, Eq)]
pub enum Action {
    /// Does a server process of this client run? (a yes/no answer)
    AskServerRunning,
    /// Does a tray process of this client, of this user, run? (answer)
    AskTrayRunning,
    /// Check the autostart configuration.
    CheckAutostart,
    /// Install the crash report handler (release builds).
    RegisterBreakdownHandler,
    /// Is the option `allow-always-software-render` set? (answer)
    AskSoftwareRender,
    /// Set (`true`) or clear `LIBGL_ALWAYS_SOFTWARE`.
    SetSoftwareRender(bool),
    /// Hand the new-connection link to the running client by this
    /// transport. (answer: delivered)
    SendNewConnection(Transport, String),
    /// Tell the user that no valid peer id was given.
    ReportMissingPeer,
    /// Is this executable the setup executable? (answer)
    AskIsSetup(String),
    /// Print the version.
    PrintVersion,
    /// Start the log under this name.
    InitLog(String),
    /// Hand the link over the session bus. (answer: delivered)
    SendOverBus(String),
    /// Is the client installed? (answer)
    AskInstalled,
    /// Start the portable service.
    StartPortableService,
    /// Restart elevated or as the system user (also what
    /// `--portable-service` runs).
    Elevate { click_setup: bool, elevate: bool, run_as_system: bool },
    /// May plugins load (a debug build, or an installed client)? (answer)
    AskPluginsAllowed,
    /// Carry out the plugin action.
    Plugins(PluginAction),
    /// Log the arguments the start goes on with.
    LogArgs(Vec<String>),
    /// `--connect` was given without a value: the start fails.
    MissingLink,
    /// Create the directory of the team id file when it is missing.
    PrepareTeamIdDir,
    /// Store the team id.
    StoreTeamId(String),
    /// Store the token.
    StoreToken(String),
    /// Set the custom API address; the process ends after it.
    SetApiUrl(String),
    /// Does the process run with administrative privileges? (answer)
    AskIsRoot,
    /// Tell the user that administrative privileges are required.
    ReportNotRoot,
    /// Run the command with these arguments (`Tray`: start the tray).
    Run(Command, Vec<String>),
    /// Is there an update path file? If so, the host reads the path of the
    /// executable to update from it (empty when it cannot be read). (answer)
    AskUpdatePath,
    /// Stop the service, end the running clients, and put this executable
    /// in place of the installed one; then start the service again.
    ReplaceInstalled,
    /// End the running clients. (answer: the command succeeded)
    EndClients,
    /// Put this executable in place of the one at the update path.
    ReplaceAtUpdatePath,
    /// Start the service.
    StartService,
    /// Run the executable at the update path.
    RunUpdated,
    /// The start is over: `None` ends the process, `Some` starts the user
    /// interface with these arguments.
    Finish(Option<Vec<String>>),
    /// End the process at once.
    Exit,
}

/// An action with its strings as character sequences.
#[verifier::ext_equal]
pub enum ActionModel {
    AskServerRunning,
    AskTrayRunning,
    CheckAutostart,
    RegisterBreakdownHandler,
    AskSoftwareRender,
    SetSoftwareRender(bool),
    SendNewConnection(Transport, Seq<char>),
    ReportMissingPeer,
    AskIsSetup(Seq<char>),
    PrintVersion,
    InitLog(Seq<char>),
    SendOverBus(Seq<char>),
    AskInstalled,
    StartPortableService,
    Elevate { click_setup: bool, elevate: bool, run_as_system: bool },
    AskPluginsAllowed,
    Plugins(PluginAction),
    LogArgs(Seq<Seq<char>>),
    MissingLink,
    PrepareTeamIdDir,
    StoreTeamId(Seq<char>),
    StoreToken(Seq<char>),
    SetApiUrl(Seq<char>),
    AskIsRoot,
    ReportNotRoot,
    Run(Command, Seq<Seq<char>>),
    AskUpdatePath,
    ReplaceInstalled,
    EndClients,
    ReplaceAtUpdatePath,
    StartService,
    RunUpdated,
    Finish(Option<Seq<Seq<char>>>),
    Exit,
}

impl View for Action {
    type V = ActionModel;

    open spec fn view(&self) -> ActionModel {
        match self {
            Action::AskServerRunning => ActionModel::AskServerRunning,
            Action::AskTrayRunning => ActionModel::AskTrayRunning,
            Action::CheckAutostart => ActionModel::CheckAutostart,
            Action::RegisterBreakdownHandler => ActionModel::RegisterBreakdownHandler,
            Action::AskSoftwareRender => ActionModel::AskSoftwareRender,
            Action::SetSoftwareRender(b) => ActionModel::SetSoftwareRender(*b),
            Action::SendNewConnection(t, l) => ActionModel::SendNewConnection(*t, l@),
            Action::ReportMissingPeer => ActionModel::ReportMissingPeer,
            Action::AskIsSetup(e) => ActionModel::AskIsSetup(e@),
            Action::PrintVersion => ActionModel::PrintVersion,
            Action::InitLog(n) => ActionModel::InitLog(n@),
            Action::SendOverBus(l) => ActionModel::SendOverBus(l@),
            Action::AskInstalled => ActionModel::AskInstalled,
            Action::StartPortableService => ActionModel::StartPortableService,
            Action::Elevate { click_setup, elevate, run_as_system } => ActionModel::Elevate {
                click_setup: *click_setup,
                elevate: *elevate,
                run_as_system: *run_as_system,
            },
            Action::AskPluginsAllowed => ActionModel::AskPluginsAllowed,
            Action::Plugins(a) => ActionModel::Plugins(*a),
            Action::LogArgs(args) => ActionModel::LogArgs(args.deep_view()),
            Action::MissingLink => ActionModel::MissingLink,
            Action::PrepareTeamIdDir => ActionModel::PrepareTeamIdDir,
            Action::StoreTeamId(t) => ActionModel::StoreTeamId(t@),
            Action::StoreToken(t) => ActionModel::StoreToken(t@),
            Action::SetApiUrl(u) => ActionModel::SetApiUrl(u@),
            Action::AskIsRoot => ActionModel::AskIsRoot,
            Action::ReportNotRoot => ActionModel::ReportNotRoot,
            Action::Run(c, args) => ActionModel::Run(*c, args.deep_view()),
            Action::AskUpdatePath => ActionModel::AskUpdatePath,
            Action::ReplaceInstalled => ActionModel::ReplaceInstalled,
            Action::EndClients => ActionModel::EndClients,
            Action::ReplaceAtUpdatePath => ActionModel::ReplaceAtUpdatePath,
            Action::StartService => ActionModel::StartService,
            Action::RunUpdated => ActionModel::RunUpdated,
            Action::Finish(r) => ActionModel::Finish(
                match r {
                    Some(v) => Some(v.deep_view()),
                    None => None,
                },
            ),
            Action::Exit => ActionModel::Exit,
        }
    }
}

/// The state of the start, with its strings as character sequences.
#[verifier::ext_equal]
pub struct StartModel {
    pub target: Target,
    pub stage: Stage,
    /// The process's command line; `raw[0]` is the executable.
    pub raw: Seq<Seq<char>>,
    pub app_name: Seq<char>,
    pub exe: Seq<char>,
    /// The arguments as they stand.
    pub args: Seq<Seq<char>>,
    /// What the Flutter interface is given.
    pub gui: Seq<Seq<char>>,
    pub flags: LaunchFlags,
    /// The host said the executable is the setup executable.
    pub exe_is_setup: bool,
    pub click_setup: bool,
    pub installed: bool,
    pub kind: LinkKind,
    pub team_id: Option<Seq<char>>,
    pub token: Option<Seq<char>>,
    pub api_url: Option<Seq<char>>,
    pub command: Command,
    pub tray_running: bool,
}

/// The start of the client; see [`Start::step`].
pub struct Start {
    target: Target,
    stage: Stage,
    raw: Vec<String>,
    app_name: String,
    exe: String,
    args: Vec<String>,
    gui: Vec<String>,
    flags: LaunchFlags,
    exe_is_setup: bool,
    click_setup: bool,
    installed: bool,
    kind: LinkKind,
    team_id: Option<String>,
    token: Option<String>,
    api_url: Option<String>,
    command: Command,
    tray_running: bool,
}

impl View for Start {
    type V = StartModel;

    closed spec fn view(&self) -> StartModel {
        StartModel {
            target: self.target,
            stage: self.stage,
            raw: self.raw.deep_view(),
            app_name: self.app_name@,
            exe: self.exe@,
            args: self.args.deep_view(),
            gui: self.gui.deep_view(),
            flags: self.flags,
            exe_is_setup: self.exe_is_setup,
            click_setup: self.click_setup,
            installed: self.installed,
            kind: self.kind,
            team_id: opt_view(self.team_id),
            token: opt_view(self.token),
            api_url: opt_view(self.api_url),
            command: self.command,
            tray_running: self.tray_running,
        }
    }
}

/// The start before its first step.
pub open spec fn initial(target: Target, raw: Seq<Seq<char>>, app_name: Seq<char>) -> StartModel {
    StartModel {
        target,
        stage: Stage::Begin,
        raw,
        app_name,
        exe: Seq::empty(),
        args: Seq::empty(),
        gui: Seq::empty(),
        flags: LaunchFlags {
            elevate: false,
            run_as_system: false,
            quick_support: false,
            invoke_new_connection: false,
        },
        exe_is_setup: false,
        click_setup: false,
        installed: false,
        kind: LinkKind::NoLink,
        team_id: None,
        token: None,
        api_url: None,
        command: Command::Gui,
        tray_running: false,
    }
}

/// `m` moved to stage `s`.
pub open spec fn at(m: StartModel, s: Stage) -> StartModel {
    StartModel { stage: s, ..m }
}

/// The application's extension: a dot and the lowercase application name.
pub open spec fn app_ext(m: StartModel) -> Seq<char> {
    "."@ + lowercase_of(m.app_name)
}

/// `m` with its command line split into executable, arguments and flags.
pub open spec fn scanned(m: StartModel) -> StartModel {
    StartModel {
        exe: if m.raw.len() > 0 {
            m.raw[0]
        } else {
            Seq::empty()
        },
        args: forwarded_args(m.raw),
        flags: LaunchFlags {
            elevate: passes(m.raw, "--elevate"@),
            run_as_system: passes(m.raw, "--run-as-system"@),
            quick_support: passes(m.raw, "--quick_support"@),
            invoke_new_connection: m.target.flutter && passes_connection_request(m.raw),
        },
        ..m
    }
}

/// Ask for running processes when no argument is left (Linux, Windows).
pub open spec fn processes_next(m: StartModel) -> (StartModel, ActionModel) {
    if m.args.len() == 0 && (m.target.os == Os::Linux || m.target.os == Os::Windows) {
        (at(m, Stage::ServerAsked), ActionModel::AskServerRunning)
    } else {
        breakdown_next(m)
    }
}

/// Install the crash report handler.
pub open spec fn breakdown_next(m: StartModel) -> (StartModel, ActionModel) {
    (at(m, Stage::BreakdownRegistered), ActionModel::RegisterBreakdownHandler)
}

/// Ask for the software rendering option (Linux, Flutter).
pub open spec fn render_next(m: StartModel) -> (StartModel, ActionModel) {
    if m.target.os == Os::Linux && m.target.flutter {
        (at(m, Stage::RenderAsked), ActionModel::AskSoftwareRender)
    } else {
        invoke_next(m)
    }
}

/// A Flutter build given a connection request hands it to a running client,
/// by the transport of its system.
pub open spec fn invoke_next(m: StartModel) -> (StartModel, ActionModel) {
    if m.flags.invoke_new_connection {
        match new_connection_link_of(m.raw, app_ext(m)) {
            Ok(l) => match transport_of(m.target.os) {
                Some(t) => (at(m, Stage::LinkSent), ActionModel::SendNewConnection(t, l)),
                None => (at(m, Stage::Done), ActionModel::Finish(None)),
            },
            Err(InvokeError::EmptyPeerId) => (at(m, Stage::PeerReported), ActionModel::ReportMissingPeer),
            Err(InvokeError::NoConnectionRequest) => (at(m, Stage::Done), ActionModel::Finish(None)),
        }
    } else {
        setup_next(m)
    }
}

/// Ask whether the executable is the setup executable (Windows, no
/// argument left).
pub open spec fn setup_next(m: StartModel) -> (StartModel, ActionModel) {
    if m.target.os == Os::Windows && m.args.len() == 0 {
        (at(m, Stage::SetupAsked), ActionModel::AskIsSetup(m.exe))
    } else {
        version_next(with_setup(m, false))
    }
}

/// `m` after the setup rules, with `is_setup` the host's answer.
pub open spec fn with_setup(m: StartModel, is_setup: bool) -> StartModel {
    let click = m.target.os == Os::Windows && m.args.len() == 0 && is_setup;
    let a = with_install(m.args, click);
    StartModel {
        exe_is_setup: is_setup,
        click_setup: click,
        gui: if click {
            seq!["--install"@]
        } else {
            Seq::empty()
        },
        args: if a.contains("--noinstall"@) {
            Seq::empty()
        } else {
            a
        },
        ..m
    }
}

/// Print the version, or start the log.
pub open spec fn version_next(m: StartModel) -> (StartModel, ActionModel) {
    if first_is(m.args, "--version"@) {
        (at(m, Stage::VersionPrinted), ActionModel::PrintVersion)
    } else {
        (at(m, Stage::LogStarted), ActionModel::InitLog(log_name_of(m.args)))
    }
}

/// Hand a link over the session bus (Linux, Flutter).
pub open spec fn bus_next(m: StartModel) -> (StartModel, ActionModel) {
    match dbus_link_of(m.target, m.args) {
        Some(l) => (at(m, Stage::BusSent), ActionModel::SendOverBus(l)),
        None => installed_next(m),
    }
}

/// Ask whether the client is installed (Windows).
pub open spec fn installed_next(m: StartModel) -> (StartModel, ActionModel) {
    if m.target.os == Os::Windows {
        (at(m, Stage::InstalledAsked), ActionModel::AskInstalled)
    } else {
        portable_next(StartModel { installed: false, ..m })
    }
}

/// Start the portable service for quick support.
pub open spec fn portable_next(m: StartModel) -> (StartModel, ActionModel) {
    if m.target.os == Os::Windows && !m.installed && m.args.len() == 0 && m.flags.quick_support
        && !m.flags.elevate && !m.flags.run_as_system {
        (at(m, Stage::PortableStarted), ActionModel::StartPortableService)
    } else {
        elevate_next(m)
    }
}

/// Restart elevated or as the system user.
pub open spec fn elevate_next(m: StartModel) -> (StartModel, ActionModel) {
    if m.target.os == Os::Windows && !m.installed && (m.flags.elevate || m.flags.run_as_system) {
        (
            at(m, Stage::Elevated),
            ActionModel::Elevate {
                click_setup: m.click_setup,
                elevate: m.flags.elevate,
                run_as_system: m.flags.run_as_system,
            },
        )
    } else {
        plugins_next(m)
    }
}

/// Ask whether plugins may load (Flutter with the plugin framework).
pub open spec fn plugins_next(m: StartModel) -> (StartModel, ActionModel) {
    if m.target.flutter && m.target.plugin_framework {
        (at(m, Stage::PluginsAsked), ActionModel::AskPluginsAllowed)
    } else {
        log_args_next(m)
    }
}

/// Carry out the plugin action, if there is one.
pub open spec fn plugin_run_next(m: StartModel, allowed: bool) -> (StartModel, ActionModel) {
    let a = plugin_action_of(m.target, m.args, allowed);
    if a != PluginAction::Nothing {
        (at(m, Stage::PluginsRun), ActionModel::Plugins(a))
    } else {
        log_args_next(m)
    }
}

/// `m` after its deep link was read.
pub open spec fn rewritten(m: StartModel) -> StartModel {
    StartModel {
        args: rewritten_args(m.args),
        kind: link_kind_of(m.args),
        team_id: team_id_of(m.args),
        token: token_of(m.args),
        api_url: api_url_of(m.args),
        ..m
    }
}

/// Log the arguments the start goes on with.
pub open spec fn log_args_next(m: StartModel) -> (StartModel, ActionModel) {
    (at(m, Stage::ArgsLogged), ActionModel::LogArgs(m.args))
}

/// Read the deep link after `--connect`.
pub open spec fn link_next(m: StartModel) -> (StartModel, ActionModel) {
    if first_is(m.args, "--connect"@) && m.args.len() < 2 {
        (at(m, Stage::LinkMissing), ActionModel::MissingLink)
    } else {
        let r = rewritten(m);
        match r.kind {
            LinkKind::Connect => if m.target.os == Os::Windows || m.target.os == Os::MacOs {
                (at(r, Stage::TeamDirPrepared), ActionModel::PrepareTeamIdDir)
            } else {
                team_id_next(r)
            },
            LinkKind::Sync => (at(r, Stage::ApiUrlSet), ActionModel::SetApiUrl(r.api_url->Some_0)),
            _ => command_next(r),
        }
    }
}

/// Store the team id of a connect link.
pub open spec fn team_id_next(m: StartModel) -> (StartModel, ActionModel) {
    match m.team_id {
        Some(t) => (at(m, Stage::TeamIdStored), ActionModel::StoreTeamId(t)),
        None => token_next(m),
    }
}

/// Store the token of a connect link.
pub open spec fn token_next(m: StartModel) -> (StartModel, ActionModel) {
    match m.token {
        Some(t) => (at(m, Stage::TokenStored), ActionModel::StoreToken(t)),
        None => command_next(m),
    }
}

/// Run the command that the arguments select (`--tray` asks first whether
/// a tray runs, `--password` whether the process has administrative
/// privileges; `--portable-service` restarts elevated or as the system
/// user; `--update` updates on Windows and ends the process elsewhere).
pub open spec fn command_next(m: StartModel) -> (StartModel, ActionModel) {
    let c = command_of(m.target, m.args);
    let m2 = StartModel { command: c, ..m };
    if c == Command::Tray {
        (at(m2, Stage::CommandTrayAsked), ActionModel::AskTrayRunning)
    } else if c == Command::SetPassword {
        (at(m2, Stage::RootAsked), ActionModel::AskIsRoot)
    } else if c == Command::Update {
        if m.target.os == Os::Windows {
            (at(m2, Stage::UpdatePathAsked), ActionModel::AskUpdatePath)
        } else {
            (at(m2, Stage::Done), ActionModel::Exit)
        }
    } else if c == Command::PortableService {
        (
            at(m2, Stage::CommandRun),
            ActionModel::Elevate {
                click_setup: m.click_setup,
                elevate: m.flags.elevate,
                run_as_system: m.flags.run_as_system,
            },
        )
    } else {
        (at(m2, Stage::CommandRun), ActionModel::Run(c, m.args))
    }
}

/// After the executable at the update path was dealt with: start the
/// service again when the client is installed, then run the updated
/// executable.
pub open spec fn restart_next(m: StartModel) -> (StartModel, ActionModel) {
    if m.installed {
        (at(m, Stage::ServiceStarted), ActionModel::StartService)
    } else {
        (at(m, Stage::UpdatedRun), ActionModel::RunUpdated)
    }
}

/// End the start as the command's flow says.
pub open spec fn finish_next(m: StartModel) -> (StartModel, ActionModel) {
    match flow_of(m.target, m.command, m.tray_running) {
        Flow::Stop => (at(m, Stage::Done), ActionModel::Finish(None)),
        Flow::Exit => (at(m, Stage::Done), ActionModel::Exit),
        Flow::OpenGui => (
            at(m, Stage::Done),
            ActionModel::Finish(
                Some(
                    if m.target.flutter {
                        m.gui
                    } else {
                        m.args
                    },
                ),
            ),
        ),
    }
}

/// The next state and action, given the reply to the last action.
pub open spec fn next(m: StartModel, reply: Reply) -> (StartModel, ActionModel) {
    match m.stage {
        Stage::Begin => processes_next(scanned(m)),
        Stage::ServerAsked => if yes(reply) {
            (at(m, Stage::TrayAsked), ActionModel::AskTrayRunning)
        } else {
            breakdown_next(m)
        },
        Stage::TrayAsked => if m.target.os == Os::Linux && m.args.len() == 0 && !yes(reply) {
            (at(m, Stage::AutostartChecked), ActionModel::CheckAutostart)
        } else {
            breakdown_next(m)
        },
        Stage::AutostartChecked => breakdown_next(m),
        Stage::BreakdownRegistered => render_next(m),
        Stage::RenderAsked => (at(m, Stage::RenderApplied), ActionModel::SetSoftwareRender(yes(reply))),
        Stage::RenderApplied => invoke_next(m),
        Stage::LinkSent => (
            at(m, Stage::Done),
            ActionModel::Finish(
                if yes(reply) {
                    None
                } else {
                    Some(Seq::empty())
                },
            ),
        ),
        Stage::PeerReported => (at(m, Stage::Done), ActionModel::Finish(None)),
        Stage::SetupAsked => version_next(with_setup(m, yes(reply))),
        Stage::VersionPrinted => (at(m, Stage::Done), ActionModel::Finish(None)),
        Stage::LogStarted => bus_next(m),
        Stage::BusSent => (
            at(m, Stage::Done),
            ActionModel::Finish(
                if yes(reply) {
                    None
                } else {
                    Some(Seq::empty())
                },
            ),
        ),
        Stage::InstalledAsked => portable_next(StartModel { installed: yes(reply), ..m }),
        Stage::PortableStarted => elevate_next(m),
        Stage::Elevated => (at(m, Stage::Done), ActionModel::Finish(None)),
        Stage::PluginsAsked => plugin_run_next(m, yes(reply)),
        Stage::PluginsRun => log_args_next(m),
        Stage::ArgsLogged => link_next(m),
        Stage::LinkMissing => (m, ActionModel::MissingLink),
        Stage::TeamDirPrepared => team_id_next(m),
        Stage::TeamIdStored => token_next(m),
        Stage::TokenStored => command_next(m),
        Stage::ApiUrlSet => (at(m, Stage::Done), ActionModel::Exit),
        Stage::CommandTrayAsked => {
            let m2 = StartModel { tray_running: yes(reply), ..m };
            if yes(reply) {
                finish_next(m2)
            } else {
                (at(m2, Stage::CommandRun), ActionModel::Run(Command::Tray, m.args))
            }
        },
        Stage::RootAsked => if yes(reply) {
            (at(m, Stage::CommandRun), ActionModel::Run(Command::SetPassword, m.args))
        } else {
            (at(m, Stage::CommandRun), ActionModel::ReportNotRoot)
        },
        Stage::CommandRun => finish_next(m),
        Stage::UpdatePathAsked => if yes(reply) {
            (at(m, Stage::UpdateInstalledAsked), ActionModel::AskInstalled)
        } else {
            (at(m, Stage::Done), ActionModel::Exit)
        },
        Stage::UpdateInstalledAsked => {
            let m2 = StartModel { installed: yes(reply), ..m };
            if yes(reply) {
                (at(m2, Stage::InstalledReplaced), ActionModel::ReplaceInstalled)
            } else {
                (at(m2, Stage::ClientsEnded), ActionModel::EndClients)
            }
        },
        Stage::InstalledReplaced => (at(m, Stage::ClientsEnded), ActionModel::EndClients),
        Stage::ClientsEnded => if yes(reply) {
            (at(m, Stage::UpdatePathReplaced), ActionModel::ReplaceAtUpdatePath)
        } else {
            restart_next(m)
        },
        Stage::UpdatePathReplaced => restart_next(m),
        Stage::ServiceStarted => (at(m, Stage::UpdatedRun), ActionModel::RunUpdated),
        Stage::UpdatedRun => (at(m, Stage::Done), ActionModel::Exit),
        Stage::Done => (m, ActionModel::Exit),
    }
}

/// The stages between reading the command line and applying the setup
/// rules.
pub open spec fn before_setup(s: Stage) -> bool {
    s == Stage::ServerAsked || s == Stage::TrayAsked || s == Stage::AutostartChecked || s
        == Stage::BreakdownRegistered || s == Stage::RenderAsked || s == Stage::RenderApplied || s
        == Stage::SetupAsked
}

/// The stages that a start asking for a new connection passes through.
pub open spec fn on_invoke_path(s: Stage) -> bool {
    s == Stage::Begin || s == Stage::ServerAsked || s == Stage::TrayAsked || s
        == Stage::AutostartChecked
            || s == Stage::BreakdownRegistered
            || s == Stage::RenderAsked
            || s
        == Stage::RenderApplied || s == Stage::LinkSent || s == Stage::PeerReported || s
        == Stage::Done
}

/// What every state of the start keeps: the Flutter interface is given
/// `--install` exactly when the setup executable was clicked, which happens
/// only on Windows, with no argument, and when the host said the executable
/// is the setup executable; a link is sent only once it was built; a start
/// asking for a new connection never leaves that path.
pub open spec fn start_wf(m: StartModel) -> bool {
    &&& m.gui == (if m.click_setup {
        seq!["--install"@]
    } else {
        Seq::<Seq<char>>::empty()
    })
    &&& m.click_setup ==> m.target.os == Os::Windows && forwarded_args(m.raw).len() == 0
        && m.exe_is_setup
    &&& (m.stage == Stage::Begin || before_setup(m.stage)) ==> !m.click_setup
    &&& before_setup(m.stage) ==> m.args == forwarded_args(m.raw)
    &&& m.stage == Stage::LinkSent ==> new_connection_link_of(m.raw, app_ext(m)) is Ok
    &&& m.flags.invoke_new_connection ==> on_invoke_path(m.stage)
}

/// The start begins well formed.
pub proof fn lemma_initial_wf(target: Target, raw: Seq<Seq<char>>, app_name: Seq<char>)
    ensures
        start_wf(initial(target, raw, app_name)),
{
}

/// The facts that hold once the setup rules were applied.
pub open spec fn after_setup_ok(m: StartModel) -> bool {
    &&& m.gui == (if m.click_setup {
        seq!["--install"@]
    } else {
        Seq::<Seq<char>>::empty()
    })
    &&& m.click_setup ==> m.target.os == Os::Windows && forwarded_args(m.raw).len() == 0
        && m.exe_is_setup
    &&& !m.flags.invoke_new_connection
}

/// A transition `r` taken from `m` after the setup rules keeps what the
/// start has fixed, leaves it well formed, and ends a Flutter build only
/// with no arguments or with what the Flutter interface is given.
pub open spec fn keeps(m: StartModel, r: (StartModel, ActionModel)) -> bool {
    &&& after_setup_ok(r.0)
    &&& r.0.stage != Stage::Begin && !before_setup(r.0.stage) && r.0.stage != Stage::LinkSent
    &&& r.0.target == m.target && r.0.raw == m.raw && r.0.app_name == m.app_name
    &&& r.0.gui == m.gui && r.0.click_setup == m.click_setup && r.0.exe_is_setup == m.exe_is_setup
    &&& m.target.flutter ==> match r.1 {
        ActionModel::Finish(Some(v)) => v.len() == 0 || v == m.gui,
        _ => true,
    }
}

proof fn lemma_finish_keeps(m: StartModel)
    requires
        after_setup_ok(m),
    ensures
        keeps(m, finish_next(m)),
{
}

proof fn lemma_command_keeps(m: StartModel)
    requires
        after_setup_ok(m),
    ensures
        keeps(m, command_next(m)),
{
}

proof fn lemma_token_keeps(m: StartModel)
    requires
        after_setup_ok(m),
    ensures
        keeps(m, token_next(m)),
{
    lemma_command_keeps(m);
}

proof fn lemma_team_id_keeps(m: StartModel)
    requires
        after_setup_ok(m),
    ensures
        keeps(m, team_id_next(m)),
{
    lemma_token_keeps(m);
}

proof fn lemma_link_keeps(m: StartModel)
    requires
        after_setup_ok(m),
    ensures
        keeps(m, link_next(m)),
{
    let r = rewritten(m);
    lemma_team_id_keeps(r);
    lemma_command_keeps(r);
}

proof fn lemma_plugin_run_keeps(m: StartModel, allowed: bool)
    requires
        after_setup_ok(m),
    ensures
        keeps(m, plugin_run_next(m, allowed)),
{
}

proof fn lemma_log_args_keeps(m: StartModel)
    requires
        after_setup_ok(m),
    ensures
        keeps(m, log_args_next(m)),
{
}

proof fn lemma_elevate_keeps(m: StartModel)
    requires
        after_setup_ok(m),
    ensures
        keeps(m, elevate_next(m)),
{
}

proof fn lemma_portable_keeps(m: StartModel)
    requires
        after_setup_ok(m),
    ensures
        keeps(m, portable_next(m)),
{
    lemma_elevate_keeps(m);
}

proof fn lemma_installed_keeps(m: StartModel)
    requires
        after_setup_ok(m),
    ensures
        keeps(m, installed_next(m)),
{
    lemma_portable_keeps(StartModel { installed: false, ..m });
}

proof fn lemma_version_keeps(m: StartModel)
    requires
        after_setup_ok(m),
    ensures
        keeps(m, version_next(m)),
{
}

proof fn lemma_bus_keeps(m: StartModel)
    requires
        after_setup_ok(m),
    ensures
        keeps(m, bus_next(m)),
{
    lemma_installed_keeps(m);
}

/// The setup rules applied to a state whose arguments are still those of
/// the command line leave the facts of `after_setup_ok`.
proof fn lemma_with_setup(m: StartModel, is_setup: bool)
    requires
        m.args == forwarded_args(m.raw),
        !m.flags.invoke_new_connection,
    ensures
        after_setup_ok(with_setup(m, is_setup)),
        with_setup(m, is_setup).raw == m.raw,
        with_setup(m, is_setup).target == m.target,
        with_setup(m, is_setup).app_name == m.app_name,
{
}

/// The states before the setup rules.
pub open spec fn early_ok(m: StartModel) -> bool {
    &&& m.args == forwarded_args(m.raw)
    &&& !m.click_setup
    &&& m.gui == Seq::<Seq<char>>::empty()
}

proof fn lemma_setup_next(m: StartModel)
    requires
        early_ok(m),
        !m.flags.invoke_new_connection,
    ensures
        start_wf(setup_next(m).0),
        setup_next(m).0.raw == m.raw,
        setup_next(m).0.target == m.target,
        setup_next(m).0.app_name == m.app_name,
        setup_next(m).1 !is Finish,
{
    if !(m.target.os == Os::Windows && m.args.len() == 0) {
        lemma_with_setup(m, false);
        lemma_version_keeps(with_setup(m, false));
    }
}

proof fn lemma_invoke_next(m: StartModel)
    requires
        early_ok(m),
    ensures
        start_wf(invoke_next(m).0),
        invoke_next(m).0.raw == m.raw,
        invoke_next(m).0.target == m.target,
        invoke_next(m).0.app_name == m.app_name,
        invoke_next(m).0.flags == m.flags,
        invoke_next(m).1 matches ActionModel::Finish(r) ==> r is None,
{
    if !m.flags.invoke_new_connection {
        lemma_setup_next(m);
    }
}

proof fn lemma_render_next(m: StartModel)
    requires
        early_ok(m),
    ensures
        start_wf(render_next(m).0),
        render_next(m).0.raw == m.raw,
        render_next(m).0.target == m.target,
        render_next(m).0.app_name == m.app_name,
        render_next(m).0.flags == m.flags,
        render_next(m).1 matches ActionModel::Finish(r) ==> r is None,
{
    lemma_invoke_next(m);
}

proof fn lemma_keeps_early(m: StartModel, reply: Reply)
    requires
        start_wf(m),
        m.stage == Stage::Begin
            || m.stage == Stage::ServerAsked
            || m.stage == Stage::TrayAsked
            || m.stage == Stage::AutostartChecked
            || m.stage == Stage::BreakdownRegistered
            || m.stage == Stage::RenderAsked
            || m.stage == Stage::RenderApplied
            || m.stage == Stage::LinkSent
            || m.stage == Stage::PeerReported,
    ensures
        start_wf(next(m, reply).0),
        next(m, reply).0.target == m.target,
        next(m, reply).0.raw == m.raw,
        next(m, reply).0.app_name == m.app_name,
        m.target.flutter ==> match next(m, reply).1 {
            ActionModel::Finish(Some(v)) => v.len() == 0 || v == m.gui,
            _ => true,
        },
{
    match m.stage {
        Stage::Begin => {},
        Stage::BreakdownRegistered => lemma_render_next(m),
        Stage::RenderApplied => lemma_invoke_next(m),
        _ => {},
    }
}

proof fn lemma_keeps_setup(m: StartModel, reply: Reply)
    requires
        start_wf(m),
        m.stage == Stage::SetupAsked
            || m.stage == Stage::VersionPrinted
            || m.stage == Stage::LogStarted
            || m.stage == Stage::BusSent,
    ensures
        start_wf(next(m, reply).0),
        next(m, reply).0.target == m.target,
        next(m, reply).0.raw == m.raw,
        next(m, reply).0.app_name == m.app_name,
        m.target.flutter ==> match next(m, reply).1 {
            ActionModel::Finish(Some(v)) => v.len() == 0 || v == m.gui,
            _ => true,
        },
{
    match m.stage {
        Stage::SetupAsked => {
            lemma_with_setup(m, yes(reply));
            lemma_version_keeps(with_setup(m, yes(reply)));
        },
        Stage::LogStarted => lemma_bus_keeps(m),
        _ => {},
    }
}

proof fn lemma_keeps_windows(m: StartModel, reply: Reply)
    requires
        start_wf(m),
        m.stage == Stage::InstalledAsked
            || m.stage == Stage::PortableStarted
            || m.stage == Stage::Elevated
            || m.stage == Stage::PluginsAsked
            || m.stage == Stage::PluginsRun
            || m.stage == Stage::ArgsLogged
            || m.stage == Stage::LinkMissing,
    ensures
        start_wf(next(m, reply).0),
        next(m, reply).0.target == m.target,
        next(m, reply).0.raw == m.raw,
        next(m, reply).0.app_name == m.app_name,
        m.target.flutter ==> match next(m, reply).1 {
            ActionModel::Finish(Some(v)) => v.len() == 0 || v == m.gui,
            _ => true,
        },
{
    match m.stage {
        Stage::InstalledAsked => lemma_portable_keeps(StartModel { installed: yes(reply), ..m }),
        Stage::PortableStarted => lemma_elevate_keeps(m),
        Stage::PluginsAsked => lemma_plugin_run_keeps(m, yes(reply)),
        Stage::PluginsRun => lemma_log_args_keeps(m),
        Stage::ArgsLogged => lemma_link_keeps(m),
        _ => {},
    }
}

proof fn lemma_keeps_command(m: StartModel, reply: Reply)
    requires
        start_wf(m),
        m.stage == Stage::TeamDirPrepared
            || m.stage == Stage::TeamIdStored
            || m.stage == Stage::TokenStored
            || m.stage == Stage::ApiUrlSet
            || m.stage == Stage::CommandTrayAsked
            || m.stage == Stage::RootAsked
            || m.stage == Stage::CommandRun
            || m.stage == Stage::Done,
    ensures
        start_wf(next(m, reply).0),
        next(m, reply).0.target == m.target,
        next(m, reply).0.raw == m.raw,
        next(m, reply).0.app_name == m.app_name,
        m.target.flutter ==> match next(m, reply).1 {
            ActionModel::Finish(Some(v)) => v.len() == 0 || v == m.gui,
            _ => true,
        },
{
    match m.stage {
        Stage::TeamDirPrepared => lemma_team_id_keeps(m),
        Stage::TeamIdStored => lemma_token_keeps(m),
        Stage::TokenStored => lemma_command_keeps(m),
        Stage::CommandTrayAsked => {
            if yes(reply) {
                lemma_finish_keeps(StartModel { tray_running: true, ..m });
            }
        },
        Stage::CommandRun => lemma_finish_keeps(m),
        _ => {},
    }
}

proof fn lemma_keeps_update(m: StartModel, reply: Reply)
    requires
        start_wf(m),
        after_setup_ok(m),
        is_update_stage(m.stage),
    ensures
        keeps(m, next(m, reply)),
{
}

/// The stages of an update (Windows).
pub open spec fn is_update_stage(s: Stage) -> bool {
    s == Stage::UpdatePathAsked || s == Stage::UpdateInstalledAsked
        || s == Stage::InstalledReplaced || s == Stage::ClientsEnded
        || s == Stage::UpdatePathReplaced || s == Stage::ServiceStarted
        || s == Stage::UpdatedRun
}

/// Every step keeps the start well formed, and keeps the build, the command
/// line and the application's name.
pub proof fn lemma_step_keeps_wf(m: StartModel, reply: Reply)
    requires
        start_wf(m),
    ensures
        start_wf(next(m, reply).0),
        next(m, reply).0.target == m.target,
        next(m, reply).0.raw == m.raw,
        next(m, reply).0.app_name == m.app_name,
        m.target.flutter ==> match next(m, reply).1 {
            ActionModel::Finish(Some(v)) => v.len() == 0 || v == m.gui,
            _ => true,
        },
{
    if m.stage == Stage::Begin
        || m.stage == Stage::ServerAsked
        || m.stage == Stage::TrayAsked
        || m.stage == Stage::AutostartChecked
        || m.stage == Stage::BreakdownRegistered
        || m.stage == Stage::RenderAsked
        || m.stage == Stage::RenderApplied
        || m.stage == Stage::LinkSent
        || m.stage == Stage::PeerReported {
        lemma_keeps_early(m, reply);
    } else if m.stage == Stage::SetupAsked
        || m.stage == Stage::VersionPrinted
        || m.stage == Stage::LogStarted
        || m.stage == Stage::BusSent {
        lemma_keeps_setup(m, reply);
    } else if is_update_stage(m.stage) {
        lemma_keeps_update(m, reply);
    } else if m.stage == Stage::InstalledAsked
        || m.stage == Stage::PortableStarted
        || m.stage == Stage::Elevated
        || m.stage == Stage::PluginsAsked
        || m.stage == Stage::PluginsRun
        || m.stage == Stage::ArgsLogged
        || m.stage == Stage::LinkMissing {
        lemma_keeps_windows(m, reply);
    } else {
        lemma_keeps_command(m, reply);
    }
}

/// A Flutter build ends its start with nothing, with no arguments, or with
/// `--install` alone; the last only on Windows, when the setup executable
/// was started without arguments.
pub proof fn lemma_flutter_results(m: StartModel, reply: Reply)
    requires
        start_wf(m),
        m.target.flutter,
    ensures
        match next(m, reply).1 {
            ActionModel::Finish(Some(v)) => v.len() == 0 || (v == seq!["--install"@]
                && m.target.os == Os::Windows && forwarded_args(m.raw).len() == 0
                && m.exe_is_setup),
            _ => true,
        },
{
    lemma_step_keeps_wf(m, reply);
}

/// A start that asks a running client for a new connection ends with
/// nothing or with no arguments: with no arguments only when the link was
/// built (a non-empty peer id followed the request) and the running client
/// did not take it, so that this process opens the user interface itself.
pub proof fn lemma_new_connection_results(m: StartModel, reply: Reply)
    requires
        start_wf(m),
        m.flags.invoke_new_connection,
    ensures
        match next(m, reply).1 {
            ActionModel::Finish(Some(v)) => v.len() == 0 && m.stage == Stage::LinkSent && !yes(
                reply,
            ) && new_connection_link_of(m.raw, app_ext(m)) is Ok,
            _ => true,
        },
{
    match m.stage {
        Stage::BreakdownRegistered => lemma_render_next(m),
        Stage::RenderApplied => lemma_invoke_next(m),
        _ => {},
    }
}

/// The stage that a start waits at after an action that hands a link to a
/// running client; a new-connection link is the one built from the command
/// line and goes by the transport of the target's system, and a link handed
/// over the session bus is the first argument.
pub open spec fn sent_at(m: StartModel, a: ActionModel, s: Stage) -> bool {
    &&& a matches ActionModel::SendNewConnection(t, l) ==> s == Stage::LinkSent
        && transport_of(m.target.os) == Some(t)
        && new_connection_link_of(m.raw, app_ext(m)) == Ok::<Seq<char>, InvokeError>(l)
    &&& a matches ActionModel::SendOverBus(l) ==> s == Stage::BusSent
        && dbus_link_of(m.target, m.args) == Some(l)
}

proof fn lemma_sent_processes(m: StartModel)
    ensures
        sent_at(m, processes_next(m).1, processes_next(m).0.stage),
{
    lemma_sent_breakdown(m);
}

proof fn lemma_sent_breakdown(m: StartModel)
    ensures
        sent_at(m, breakdown_next(m).1, breakdown_next(m).0.stage),
{
    
}

proof fn lemma_sent_render(m: StartModel)
    ensures
        sent_at(m, render_next(m).1, render_next(m).0.stage),
{
    lemma_sent_invoke(m);
}

proof fn lemma_sent_invoke(m: StartModel)
    ensures
        sent_at(m, invoke_next(m).1, invoke_next(m).0.stage),
{
    lemma_sent_setup(m);
}

proof fn lemma_sent_setup(m: StartModel)
    ensures
        sent_at(m, setup_next(m).1, setup_next(m).0.stage),
{
    lemma_sent_version(with_setup(m, false));
}

proof fn lemma_sent_version(m: StartModel)
    ensures
        sent_at(m, version_next(m).1, version_next(m).0.stage),
{
    
}

proof fn lemma_sent_bus(m: StartModel)
    ensures
        sent_at(m, bus_next(m).1, bus_next(m).0.stage),
{
    lemma_sent_installed(m);
}

proof fn lemma_sent_installed(m: StartModel)
    ensures
        sent_at(m, installed_next(m).1, installed_next(m).0.stage),
{
    lemma_sent_portable(StartModel { installed: false, ..m });
}

proof fn lemma_sent_portable(m: StartModel)
    ensures
        sent_at(m, portable_next(m).1, portable_next(m).0.stage),
{
    lemma_sent_elevate(m);
}

proof fn lemma_sent_elevate(m: StartModel)
    ensures
        sent_at(m, elevate_next(m).1, elevate_next(m).0.stage),
{
    lemma_sent_plugins(m);
}

proof fn lemma_sent_plugins(m: StartModel)
    ensures
        sent_at(m, plugins_next(m).1, plugins_next(m).0.stage),
{
    lemma_sent_log_args(m);
}

proof fn lemma_sent_log_args(m: StartModel)
    ensures
        sent_at(m, log_args_next(m).1, log_args_next(m).0.stage),
{
    
}

proof fn lemma_sent_link(m: StartModel)
    ensures
        sent_at(m, link_next(m).1, link_next(m).0.stage),
{
    lemma_sent_team_id(rewritten(m));
    lemma_sent_command(rewritten(m));
}

proof fn lemma_sent_team_id(m: StartModel)
    ensures
        sent_at(m, team_id_next(m).1, team_id_next(m).0.stage),
{
    lemma_sent_token(m);
}

proof fn lemma_sent_token(m: StartModel)
    ensures
        sent_at(m, token_next(m).1, token_next(m).0.stage),
{
    lemma_sent_command(m);
}

proof fn lemma_sent_command(m: StartModel)
    ensures
        sent_at(m, command_next(m).1, command_next(m).0.stage),
{
    
}

proof fn lemma_sent_finish(m: StartModel)
    ensures
        sent_at(m, finish_next(m).1, finish_next(m).0.stage),
{
    
}

proof fn lemma_sent_plugin_run(m: StartModel, allowed: bool)
    ensures
        sent_at(m, plugin_run_next(m, allowed).1, plugin_run_next(m, allowed).0.stage),
{
    lemma_sent_log_args(m);
}

proof fn lemma_sent_step_0(m: StartModel, reply: Reply)
    requires
        m.stage == Stage::Begin
        || m.stage == Stage::ServerAsked
        || m.stage == Stage::TrayAsked
        || m.stage == Stage::AutostartChecked
        || m.stage == Stage::BreakdownRegistered
        || m.stage == Stage::RenderAsked
        || m.stage == Stage::RenderApplied
        || m.stage == Stage::LinkSent
        || m.stage == Stage::PeerReported
        || m.stage == Stage::SetupAsked,
    ensures
        sent_at(m, next(m, reply).1, next(m, reply).0.stage),
{
    match m.stage {
        Stage::Begin => lemma_sent_processes(scanned(m)),
        Stage::ServerAsked => lemma_sent_breakdown(m),
        Stage::TrayAsked => lemma_sent_breakdown(m),
        Stage::AutostartChecked => lemma_sent_breakdown(m),
        Stage::BreakdownRegistered => lemma_sent_render(m),
        Stage::RenderApplied => lemma_sent_invoke(m),
        Stage::SetupAsked => lemma_sent_version(with_setup(m, yes(reply))),
        _ => {},
    }
}

proof fn lemma_sent_step_1(m: StartModel, reply: Reply)
    requires
        m.stage == Stage::VersionPrinted
        || m.stage == Stage::LogStarted
        || m.stage == Stage::BusSent
        || m.stage == Stage::InstalledAsked
        || m.stage == Stage::PortableStarted
        || m.stage == Stage::Elevated
        || m.stage == Stage::PluginsAsked
        || m.stage == Stage::PluginsRun
        || m.stage == Stage::ArgsLogged,
    ensures
        sent_at(m, next(m, reply).1, next(m, reply).0.stage),
{
    match m.stage {
        Stage::LogStarted => lemma_sent_bus(m),
        Stage::InstalledAsked => lemma_sent_portable(StartModel { installed: yes(reply), ..m }),
        Stage::PortableStarted => lemma_sent_elevate(m),
        Stage::PluginsAsked => lemma_sent_plugin_run(m, yes(reply)),
        Stage::PluginsRun => lemma_sent_log_args(m),
        Stage::ArgsLogged => lemma_sent_link(m),
        _ => {},
    }
}

proof fn lemma_sent_step_2(m: StartModel, reply: Reply)
    requires
        m.stage == Stage::LinkMissing
        || m.stage == Stage::TeamDirPrepared
        || m.stage == Stage::TeamIdStored
        || m.stage == Stage::TokenStored
        || m.stage == Stage::ApiUrlSet
        || m.stage == Stage::CommandTrayAsked
        || m.stage == Stage::RootAsked
        || m.stage == Stage::CommandRun
        || m.stage == Stage::Done,
    ensures
        sent_at(m, next(m, reply).1, next(m, reply).0.stage),
{
    match m.stage {
        Stage::TeamDirPrepared => lemma_sent_team_id(m),
        Stage::TeamIdStored => lemma_sent_token(m),
        Stage::TokenStored => lemma_sent_command(m),
        Stage::CommandTrayAsked => lemma_sent_finish(StartModel { tray_running: yes(reply), ..m }),
        Stage::CommandRun => lemma_sent_finish(m),
        _ => {},
    }
}

proof fn lemma_sent_step_3(m: StartModel, reply: Reply)
    requires
        is_update_stage(m.stage),
    ensures
        sent_at(m, next(m, reply).1, next(m, reply).0.stage),
{
}

/// A link is handed to a running client once. A new-connection link is the
/// one built from the command line and goes by the transport of the
/// target's system (the session bus on Linux, the window message on
/// Windows, the URL scheme on macOS); a link handed over the session bus is
/// the first argument, as it stands. The step after a hand-over ends the
/// start: with nothing when the running client took the link, else with no
/// arguments, so that this process opens the user interface itself.
pub proof fn lemma_link_sent_once(m: StartModel, reply: Reply, reply2: Reply)
    ensures
        next(m, reply).1 matches ActionModel::SendNewConnection(t, l) ==> transport_of(
            m.target.os,
        ) == Some(t) && new_connection_link_of(m.raw, app_ext(m)) == Ok::<
            Seq<char>,
            InvokeError,
        >(l),
        next(m, reply).1 matches ActionModel::SendOverBus(l) ==> dbus_link_of(m.target, m.args)
            == Some(l),
        (next(m, reply).1 is SendNewConnection || next(m, reply).1 is SendOverBus) ==> ({
            let after = next(next(m, reply).0, reply2);
            &&& after.0.stage == Stage::Done
            &&& after.1 == ActionModel::Finish(
                if yes(reply2) {
                    None
                } else {
                    Some(Seq::empty())
                },
            )
        }),
{
    let s = m.stage;
    if s == Stage::Begin || s == Stage::ServerAsked || s == Stage::TrayAsked
        || s == Stage::AutostartChecked || s == Stage::BreakdownRegistered
        || s == Stage::RenderAsked || s == Stage::RenderApplied || s == Stage::LinkSent
        || s == Stage::PeerReported || s == Stage::SetupAsked {
        lemma_sent_step_0(m, reply);
    } else if s == Stage::VersionPrinted || s == Stage::LogStarted || s == Stage::BusSent
        || s == Stage::InstalledAsked || s == Stage::PortableStarted || s == Stage::Elevated
        || s == Stage::PluginsAsked || s == Stage::PluginsRun || s == Stage::ArgsLogged {
        lemma_sent_step_1(m, reply);
    } else if is_update_stage(s) {
        lemma_sent_step_3(m, reply);
    } else {
        lemma_sent_step_2(m, reply);
    }
}

/// Starting the portable service does not end the start: the step after it
/// goes on to the elevation rule, the plugins and the command, and neither
/// finishes nor ends the process.
pub proof fn lemma_portable_service_goes_on(m: StartModel, reply: Reply)
    requires
        m.stage == Stage::PortableStarted,
    ensures
        !(next(m, reply).1 is Finish),
        !(next(m, reply).1 is Exit),
        next(m, reply).0.stage != Stage::Done,
{
}

/// Once done, the start stays done and only asks to end the process.
pub proof fn lemma_done_stays(m: StartModel, reply: Reply)
    requires
        m.stage == Stage::Done,
    ensures
        next(m, reply) == (m, ActionModel::Exit),
{
}

/// Whether the reply is a yes.
fn is_yes(r: Reply) -> (b: bool)
    ensures
        b == yes(r),
{
    match r {
        Reply::Answer(b) => b,
        Reply::Ack => false,
    }
}

/// Whether the build is for `os`.
fn os_is(target: &Target, os: Os) -> (b: bool)
    ensures
        b == (target.os == os),
{
    match (target.os, os) {
        (Os::Windows, Os::Windows) | (Os::Linux, Os::Linux) | (Os::MacOs, Os::MacOs) | (
            Os::Other,
            Os::Other,
        ) => true,
        _ => false,
    }
}

impl Start {
    /// The start of a client built for `target`, with the process's command
    /// line `raw` (`raw[0]` is the executable) and the application's name.
    pub fn new(target: Target, raw: Vec<String>, app_name: String) -> (s: Start)
        ensures
            s@ == initial(target, raw.deep_view(), app_name@),
            start_wf(s@),
    {
        let s = Start {
            target,
            stage: Stage::Begin,
            raw,
            app_name,
            exe: String::new(),
            args: Vec::new(),
            gui: Vec::new(),
            flags: LaunchFlags {
                elevate: false,
                run_as_system: false,
                quick_support: false,
                invoke_new_connection: false,
            },
            exe_is_setup: false,
            click_setup: false,
            installed: false,
            kind: LinkKind::NoLink,
            team_id: None,
            token: None,
            api_url: None,
            command: Command::Gui,
            tray_running: false,
        };
        assert(s@ =~= initial(target, s.raw.deep_view(), s.app_name@));
        proof {
            lemma_initial_wf(target, s.raw.deep_view(), s.app_name@);
        }
        s
    }

    fn go_processes(&mut self) -> (a: Action)
        ensures
            (final(self)@, a@) == processes_next(old(self)@),
    {
        let os_ok = os_is(&self.target, Os::Linux) || os_is(&self.target, Os::Windows);
        if self.args.len() == 0 && os_ok {
            self.stage = Stage::ServerAsked;
            Action::AskServerRunning
        } else {
            self.go_breakdown()
        }
    }

    fn go_breakdown(&mut self) -> (a: Action)
        ensures
            (final(self)@, a@) == breakdown_next(old(self)@),
    {
        self.stage = Stage::BreakdownRegistered;
        Action::RegisterBreakdownHandler
    }

    fn go_render(&mut self) -> (a: Action)
        ensures
            (final(self)@, a@) == render_next(old(self)@),
    {
        if os_is(&self.target, Os::Linux) && self.target.flutter {
            self.stage = Stage::RenderAsked;
            Action::AskSoftwareRender
        } else {
            self.go_invoke()
        }
    }

    fn go_invoke(&mut self) -> (a: Action)
        ensures
            (final(self)@, a@) == invoke_next(old(self)@),
    {
        if self.flags.invoke_new_connection {
            match core_main_invoke_new_connection(&self.raw, self.app_name.as_str()) {
                Ok(l) => match transport(&self.target) {
                    Some(t) => {
                        self.stage = Stage::LinkSent;
                        Action::SendNewConnection(t, l)
                    },
                    None => {
                        self.stage = Stage::Done;
                        Action::Finish(None)
                    },
                },
                Err(InvokeError::EmptyPeerId) => {
                    self.stage = Stage::PeerReported;
                    Action::ReportMissingPeer
                },
                Err(InvokeError::NoConnectionRequest) => {
                    self.stage = Stage::Done;
                    Action::Finish(None)
                },
            }
        } else {
            self.go_setup()
        }
    }

    fn go_setup(&mut self) -> (a: Action)
        ensures
            (final(self)@, a@) == setup_next(old(self)@),
    {
        if os_is(&self.target, Os::Windows) && self.args.len() == 0 {
            self.stage = Stage::SetupAsked;
            Action::AskIsSetup(self.exe.clone())
        } else {
            self.apply_setup_answer(false);
            self.go_version()
        }
    }

    fn apply_setup_answer(&mut self, is_setup: bool)
        ensures
            final(self)@ == with_setup(old(self)@, is_setup),
    {
        let mut args: Vec<String> = Vec::new();
        std::mem::swap(&mut args, &mut self.args);
        let setup = apply_setup(&self.target, args, is_setup);
        self.exe_is_setup = is_setup;
        self.click_setup = setup.click_setup;
        self.args = setup.args;
        self.gui = setup.gui_args;
        assert(self@ =~= with_setup(old(self)@, is_setup));
    }

    fn go_version(&mut self) -> (a: Action)
        ensures
            (final(self)@, a@) == version_next(old(self)@),
    {
        if is_version_request(&self.args) {
            self.stage = Stage::VersionPrinted;
            Action::PrintVersion
        } else {
            self.stage = Stage::LogStarted;
            Action::InitLog(log_name(&self.args))
        }
    }

    fn go_bus(&mut self) -> (a: Action)
        ensures
            (final(self)@, a@) == bus_next(old(self)@),
    {
        match dbus_link(&self.target, &self.args) {
            Some(l) => {
                self.stage = Stage::BusSent;
                Action::SendOverBus(l)
            },
            None => self.go_installed(),
        }
    }

    fn go_installed(&mut self) -> (a: Action)
        ensures
            (final(self)@, a@) == installed_next(old(self)@),
    {
        if os_is(&self.target, Os::Windows) {
            self.stage = Stage::InstalledAsked;
            Action::AskInstalled
        } else {
            self.installed = false;
            self.go_portable()
        }
    }

    fn go_portable(&mut self) -> (a: Action)
        ensures
            (final(self)@, a@) == portable_next(old(self)@),
    {
        if starts_portable_service(&self.target, self.installed, &self.args, &self.flags) {
            self.stage = Stage::PortableStarted;
            Action::StartPortableService
        } else {
            self.go_elevate()
        }
    }

    fn go_elevate(&mut self) -> (a: Action)
        ensures
            (final(self)@, a@) == elevate_next(old(self)@),
    {
        if needs_elevation(&self.target, self.installed, &self.flags) {
            self.stage = Stage::Elevated;
            Action::Elevate {
                click_setup: self.click_setup,
                elevate: self.flags.elevate,
                run_as_system: self.flags.run_as_system,
            }
        } else {
            self.go_plugins()
        }
    }

    fn go_plugins(&mut self) -> (a: Action)
        ensures
            (final(self)@, a@) == plugins_next(old(self)@),
    {
        if self.target.flutter && self.target.plugin_framework {
            self.stage = Stage::PluginsAsked;
            Action::AskPluginsAllowed
        } else {
            self.go_log_args()
        }
    }

    fn go_plugin_run(&mut self, allowed: bool) -> (a: Action)
        ensures
            (final(self)@, a@) == plugin_run_next(old(self)@, allowed),
    {
        let action = init_plugins(&self.target, &self.args, allowed);
        match action {
            PluginAction::Nothing => self.go_log_args(),
            _ => {
                self.stage = Stage::PluginsRun;
                Action::Plugins(action)
            },
        }
    }

    fn go_log_args(&mut self) -> (a: Action)
        ensures
            (final(self)@, a@) == log_args_next(old(self)@),
    {
        self.stage = Stage::ArgsLogged;
        Action::LogArgs(self.args.clone())
    }

    fn go_link(&mut self) -> (a: Action)
        ensures
            (final(self)@, a@) == link_next(old(self)@),
    {
        if first_arg_is(&self.args, "--connect") && self.args.len() < 2 {
            self.stage = Stage::LinkMissing;
            return Action::MissingLink;
        }
        let mut args: Vec<String> = Vec::new();
        std::mem::swap(&mut args, &mut self.args);
        let r = rewrite_deep_link(args);
        self.args = r.args;
        self.kind = r.kind;
        self.team_id = r.team_id;
        self.token = r.token;
        self.api_url = r.api_url;
        assert(self@ =~= rewritten(old(self)@));
        match self.kind {
            LinkKind::Connect => {
                if os_is(&self.target, Os::Windows) || os_is(&self.target, Os::MacOs) {
                    self.stage = Stage::TeamDirPrepared;
                    Action::PrepareTeamIdDir
                } else {
                    self.go_team_id()
                }
            },
            LinkKind::Sync => {
                self.stage = Stage::ApiUrlSet;
                let url = match &self.api_url {
                    Some(u) => u.clone(),
                    None => String::new(),
                };
                Action::SetApiUrl(url)
            },
            _ => self.go_command(),
        }
    }

    fn go_team_id(&mut self) -> (a: Action)
        ensures
            (final(self)@, a@) == team_id_next(old(self)@),
    {
        match &self.team_id {
            Some(t) => {
                let t = t.clone();
                self.stage = Stage::TeamIdStored;
                Action::StoreTeamId(t)
            },
            None => self.go_token(),
        }
    }

    fn go_token(&mut self) -> (a: Action)
        ensures
            (final(self)@, a@) == token_next(old(self)@),
    {
        match &self.token {
            Some(t) => {
                let t = t.clone();
                self.stage = Stage::TokenStored;
                Action::StoreToken(t)
            },
            None => self.go_command(),
        }
    }

    fn go_command(&mut self) -> (a: Action)
        ensures
            (final(self)@, a@) == command_next(old(self)@),
    {
        let c = classify(&self.target, &self.args);
        self.command = c;
        match c {
            Command::Tray => {
                self.stage = Stage::CommandTrayAsked;
                Action::AskTrayRunning
            },
            Command::SetPassword => {
                self.stage = Stage::RootAsked;
                Action::AskIsRoot
            },
            Command::Update => {
                if os_is(&self.target, Os::Windows) {
                    self.stage = Stage::UpdatePathAsked;
                    Action::AskUpdatePath
                } else {
                    self.stage = Stage::Done;
                    Action::Exit
                }
            },
            Command::PortableService => {
                self.stage = Stage::CommandRun;
                Action::Elevate {
                    click_setup: self.click_setup,
                    elevate: self.flags.elevate,
                    run_as_system: self.flags.run_as_system,
                }
            },
            _ => {
                self.stage = Stage::CommandRun;
                Action::Run(c, self.args.clone())
            },
        }
    }

    fn go_finish(&mut self) -> (a: Action)
        ensures
            (final(self)@, a@) == finish_next(old(self)@),
    {
        self.stage = Stage::Done;
        match flow_after(&self.target, self.command, self.tray_running) {
            Flow::Stop => Action::Finish(None),
            Flow::Exit => Action::Exit,
            Flow::OpenGui => {
                let args = self.args.clone();
                let gui = self.gui.clone();
                Action::Finish(Some(gui_args(&self.target, args, gui)))
            },
        }
    }

    fn step_prelude(&mut self, reply: Reply) -> (a: Action)
        requires
            old(self).stage == Stage::Begin
                || old(self).stage == Stage::ServerAsked
                || old(self).stage == Stage::TrayAsked
                || old(self).stage == Stage::AutostartChecked
                || old(self).stage == Stage::BreakdownRegistered
                || old(self).stage == Stage::RenderAsked
                || old(self).stage == Stage::RenderApplied,
        ensures
            (final(self)@, a@) == next(old(self)@, reply),
    {
        let y = is_yes(reply);
        match self.stage {
            Stage::Begin => {
                let s = scan_args(&self.target, &self.raw);
                self.exe = s.exe;
                self.args = s.args;
                self.flags = s.flags;
                assert(self@ =~= scanned(old(self)@));
                self.go_processes()
            },
            Stage::ServerAsked => if y {
                self.stage = Stage::TrayAsked;
                Action::AskTrayRunning
            } else {
                self.go_breakdown()
            },
            Stage::TrayAsked => if needs_autostart_check(&self.target, &self.args, true, y) {
                self.stage = Stage::AutostartChecked;
                Action::CheckAutostart
            } else {
                self.go_breakdown()
            },
            Stage::AutostartChecked => self.go_breakdown(),
            Stage::BreakdownRegistered => self.go_render(),
            Stage::RenderAsked => {
                self.stage = Stage::RenderApplied;
                Action::SetSoftwareRender(y)
            },
            Stage::RenderApplied => self.go_invoke(),
            _ => Action::Exit,
        }
    }

    fn step_setup(&mut self, reply: Reply) -> (a: Action)
        requires
            old(self).stage == Stage::LinkSent
                || old(self).stage == Stage::PeerReported
                || old(self).stage == Stage::SetupAsked
                || old(self).stage == Stage::VersionPrinted
                || old(self).stage == Stage::LogStarted
                || old(self).stage == Stage::BusSent,
        ensures
            (final(self)@, a@) == next(old(self)@, reply),
    {
        let y = is_yes(reply);
        match self.stage {
            Stage::LinkSent => {
                self.stage = Stage::Done;
                let r = after_link_sent(y);
                proof {
                    if !y {
                        assert(r->Some_0.deep_view() =~= Seq::<Seq<char>>::empty());
                    }
                }
                Action::Finish(r)
            },
            Stage::PeerReported => {
                self.stage = Stage::Done;
                Action::Finish(None)
            },
            Stage::SetupAsked => {
                self.apply_setup_answer(y);
                self.go_version()
            },
            Stage::VersionPrinted => {
                self.stage = Stage::Done;
                Action::Finish(None)
            },
            Stage::LogStarted => self.go_bus(),
            Stage::BusSent => {
                self.stage = Stage::Done;
                let r = after_link_sent(y);
                proof {
                    if !y {
                        assert(r->Some_0.deep_view() =~= Seq::<Seq<char>>::empty());
                    }
                }
                Action::Finish(r)
            },
            _ => Action::Exit,
        }
    }

    fn step_windows(&mut self, reply: Reply) -> (a: Action)
        requires
            old(self).stage == Stage::InstalledAsked
                || old(self).stage == Stage::PortableStarted
                || old(self).stage == Stage::Elevated
                || old(self).stage == Stage::PluginsAsked
                || old(self).stage == Stage::PluginsRun
                || old(self).stage == Stage::ArgsLogged
                || old(self).stage == Stage::LinkMissing,
        ensures
            (final(self)@, a@) == next(old(self)@, reply),
    {
        let y = is_yes(reply);
        match self.stage {
            Stage::InstalledAsked => {
                self.installed = y;
                self.go_portable()
            },
            Stage::PortableStarted => self.go_elevate(),
            Stage::Elevated => {
                self.stage = Stage::Done;
                Action::Finish(None)
            },
            Stage::PluginsAsked => self.go_plugin_run(y),
            Stage::PluginsRun => self.go_log_args(),
            Stage::ArgsLogged => self.go_link(),
            Stage::LinkMissing => Action::MissingLink,
            _ => Action::Exit,
        }
    }

    fn step_command(&mut self, reply: Reply) -> (a: Action)
        requires
            old(self).stage == Stage::TeamDirPrepared
                || old(self).stage == Stage::TeamIdStored
                || old(self).stage == Stage::TokenStored
                || old(self).stage == Stage::ApiUrlSet
                || old(self).stage == Stage::CommandTrayAsked
                || old(self).stage == Stage::RootAsked
                || old(self).stage == Stage::CommandRun
                || old(self).stage == Stage::Done,
        ensures
            (final(self)@, a@) == next(old(self)@, reply),
    {
        let y = is_yes(reply);
        match self.stage {
            Stage::TeamDirPrepared => self.go_team_id(),
            Stage::TeamIdStored => self.go_token(),
            Stage::TokenStored => self.go_command(),
            Stage::ApiUrlSet => {
                self.stage = Stage::Done;
                Action::Exit
            },
            Stage::CommandTrayAsked => {
                self.tray_running = y;
                if y {
                    self.go_finish()
                } else {
                    self.stage = Stage::CommandRun;
                    Action::Run(Command::Tray, self.args.clone())
                }
            },
            Stage::RootAsked => {
                self.stage = Stage::CommandRun;
                if y {
                    Action::Run(Command::SetPassword, self.args.clone())
                } else {
                    Action::ReportNotRoot
                }
            },
            Stage::CommandRun => self.go_finish(),
            Stage::Done => Action::Exit,
            _ => Action::Exit,
        }
    }

    fn go_restart(&mut self) -> (a: Action)
        ensures
            (final(self)@, a@) == restart_next(old(self)@),
    {
        if self.installed {
            self.stage = Stage::ServiceStarted;
            Action::StartService
        } else {
            self.stage = Stage::UpdatedRun;
            Action::RunUpdated
        }
    }

    fn step_update(&mut self, reply: Reply) -> (a: Action)
        requires
            is_update_stage(old(self).stage),
        ensures
            (final(self)@, a@) == next(old(self)@, reply),
    {
        let y = is_yes(reply);
        match self.stage {
            Stage::UpdatePathAsked => {
                if y {
                    self.stage = Stage::UpdateInstalledAsked;
                    Action::AskInstalled
                } else {
                    self.stage = Stage::Done;
                    Action::Exit
                }
            },
            Stage::UpdateInstalledAsked => {
                self.installed = y;
                if y {
                    self.stage = Stage::InstalledReplaced;
                    Action::ReplaceInstalled
                } else {
                    self.stage = Stage::ClientsEnded;
                    Action::EndClients
                }
            },
            Stage::InstalledReplaced => {
                self.stage = Stage::ClientsEnded;
                Action::EndClients
            },
            Stage::ClientsEnded => {
                if y {
                    self.stage = Stage::UpdatePathReplaced;
                    Action::ReplaceAtUpdatePath
                } else {
                    self.go_restart()
                }
            },
            Stage::UpdatePathReplaced => self.go_restart(),
            Stage::ServiceStarted => {
                self.stage = Stage::UpdatedRun;
                Action::RunUpdated
            },
            _ => {
                self.stage = Stage::Done;
                Action::Exit
            },
        }
    }

    /// One step of the start: given the reply to the last action (anything
    /// for the first step), the state moves on and the next action is
    /// returned.
    pub fn step(&mut self, reply: Reply) -> (a: Action)
        ensures
            (final(self)@, a@) == next(old(self)@, reply),
            start_wf(old(self)@) ==> start_wf(final(self)@),
    {
        proof {
            if start_wf(self@) {
                lemma_step_keeps_wf(self@, reply);
            }
        }
        match self.stage {
            Stage::Begin
            | Stage::ServerAsked
            | Stage::TrayAsked
            | Stage::AutostartChecked
            | Stage::BreakdownRegistered
            | Stage::RenderAsked
            | Stage::RenderApplied => self.step_prelude(reply),
            Stage::LinkSent
            | Stage::PeerReported
            | Stage::SetupAsked
            | Stage::VersionPrinted
            | Stage::LogStarted
            | Stage::BusSent => self.step_setup(reply),
            Stage::InstalledAsked
            | Stage::PortableStarted
            | Stage::Elevated
            | Stage::PluginsAsked
            | Stage::PluginsRun
            | Stage::ArgsLogged
            | Stage::LinkMissing => self.step_windows(reply),
            Stage::TeamDirPrepared
            | Stage::TeamIdStored
            | Stage::TokenStored
            | Stage::ApiUrlSet
            | Stage::CommandTrayAsked
            | Stage::RootAsked
            | Stage::CommandRun
            | Stage::Done => self.step_command(reply),
            Stage::UpdatePathAsked
            | Stage::UpdateInstalledAsked
            | Stage::InstalledReplaced
            | Stage::ClientsEnded
            | Stage::UpdatePathReplaced
            | Stage::ServiceStarted
            | Stage::UpdatedRun => self.step_update(reply),
        }
    }

}

} // verus!

//! Reading the command line: which flags are consumed, which flags are
//! added for a setup executable, and what the first argument selects.

use vstd::prelude::*;
use crate::text::{
    has_double_dash, has_prefix, lemma_no_double_dash_left, replaced, replace, starts_with, str_eq,
};

verus! {

/// The operating system the client is built for.
#[derive(Clone, Copy, Debug, PartialEq, Eq, Structural)]
pub enum Os {
    Windows,
    Linux,
    MacOs,
    Other,
}

/// What the client was built for: the operating system and the optional
/// parts that change how the command line is read.
#[derive(Clone, Copy, Debug, PartialEq, Eq, Structural)]
pub struct Target {
    pub os: Os,
    /// The Flutter user interface.
    pub flutter: bool,
    /// The plugin framework (only used together with Flutter).
    pub plugin_framework: bool,
}

/// The flags that are consumed from the command line and not passed on.
pub open spec fn is_launch_flag(a: Seq<char>) -> bool {
    a == "--elevate"@ || a == "--run-as-system"@ || a == "--quick_support"@
}

/// The flags with which the Flutter interface asks an already running
/// client for a new connection window.
pub open spec fn is_connection_request(a: Seq<char>) -> bool {
    a == "--connect"@ || a == "--play"@ || a == "--file-transfer"@ || a == "--port-forward"@
        || a == "--rdp"@
}

/// The arguments after the executable's name, without the launch flags, in
/// their order.
pub open spec fn forwarded_args(raw: Seq<Seq<char>>) -> Seq<Seq<char>> {
    if raw.len() == 0 {
        Seq::empty()
    } else {
        raw.skip(1).filter(not_launch_flag())
    }
}

/// The arguments that are passed on.
pub open spec fn not_launch_flag() -> spec_fn(Seq<char>) -> bool {
    |a: Seq<char>| !is_launch_flag(a)
}

/// Some argument after the executable's name is `a`.
pub open spec fn passes(raw: Seq<Seq<char>>, a: Seq<char>) -> bool {
    exists|i: int| 1 <= i < raw.len() && raw[i] == a
}

/// Some argument after the executable's name is a connection request.
pub open spec fn passes_connection_request(raw: Seq<Seq<char>>) -> bool {
    exists|i: int| 1 <= i < raw.len() && is_connection_request(raw[i])
}

/// The launch flags found on the command line.
#[derive(Clone, Copy, Debug, PartialEq, Eq, Structural)]
pub struct LaunchFlags {
    /// `--elevate`
    pub elevate: bool,
    /// `--run-as-system`
    pub run_as_system: bool,
    /// `--quick_support`
    pub quick_support: bool,
    /// A Flutter build was given a connection request.
    pub invoke_new_connection: bool,
}

/// The command line split into the executable, the arguments passed on,
/// and the launch flags.
pub struct ScannedArgs {
    pub exe: String,
    pub args: Vec<String>,
    pub flags: LaunchFlags,
}

/// Whether `a` is one of the launch flags.
fn is_launch_flag_exec(a: &str) -> (r: bool)
    ensures
        r == is_launch_flag(a@),
{
    str_eq(a, "--elevate") || str_eq(a, "--run-as-system") || str_eq(a, "--quick_support")
}

/// Whether `a` is a connection request.
fn is_connection_request_exec(a: &str) -> (r: bool)
    ensures
        r == is_connection_request(a@),
{
    str_eq(a, "--connect") || str_eq(a, "--play") || str_eq(a, "--file-transfer") || str_eq(
        a,
        "--port-forward",
    ) || str_eq(a, "--rdp")
}

/// Splits the raw command line (`raw[0]` is the executable) into the
/// executable's name, the arguments that are passed on, and the flags
/// `--elevate`, `--run-as-system` and `--quick_support`, which are consumed.
/// A Flutter build also notes whether a connection request was given; those
/// arguments stay in place.
pub fn scan_args(target: &Target, raw: &Vec<String>) -> (r: ScannedArgs)
    ensures
        r.exe@ == (if raw@.len() > 0 { raw@[0]@ } else { Seq::<char>::empty() }),
        r.args.deep_view() == forwarded_args(raw.deep_view()),
        forall|i: int| 0 <= i < r.args@.len() ==> !is_launch_flag(#[trigger] r.args@[i]@),
        r.flags.elevate == passes(raw.deep_view(), "--elevate"@),
        r.flags.run_as_system == passes(raw.deep_view(), "--run-as-system"@),
        r.flags.quick_support == passes(raw.deep_view(), "--quick_support"@),
        r.flags.invoke_new_connection == (target.flutter && passes_connection_request(
            raw.deep_view(),
        )),
{
    let ghost dv = raw.deep_view();
    let mut args: Vec<String> = Vec::new();
    let mut elevate = false;
    let mut run_as_system = false;
    let mut quick_support = false;
    let mut connection_request = false;
    if raw.len() == 0 {
        proof {
            assert(args.deep_view() =~= forwarded_args(dv));
        }
        return ScannedArgs {
            exe: String::new(),
            args,
            flags: LaunchFlags {
                elevate,
                run_as_system,
                quick_support,
                invoke_new_connection: connection_request,
            },
        };
    }
    let exe = raw[0].clone();
    let mut i: usize = 1;
    proof {
        assert(dv.skip(1).take(0) =~= Seq::<Seq<char>>::empty());
        assert(dv.skip(1).take(0).filter(not_launch_flag()) =~= Seq::<Seq<char>>::empty());
        assert(args.deep_view() =~= Seq::<Seq<char>>::empty());
    }
    while i < raw.len()
        invariant
            dv == raw.deep_view(),
            dv.len() == raw@.len(),
            1 <= i <= raw@.len(),
            args.deep_view() == dv.skip(1).take(i - 1).filter(not_launch_flag()),
            forall|k: int| 0 <= k < args@.len() ==> !is_launch_flag(#[trigger] args@[k]@),
            elevate == (exists|j: int| 1 <= j < i && dv[j] == "--elevate"@),
            run_as_system == (exists|j: int| 1 <= j < i && dv[j] == "--run-as-system"@),
            quick_support == (exists|j: int| 1 <= j < i && dv[j] == "--quick_support"@),
            connection_request == (exists|j: int| 1 <= j < i && is_connection_request(dv[j])),
        decreases raw@.len() - i,
    {
        let a = raw[i].as_str();
        assert(a@ == dv[i as int]);
        if is_connection_request_exec(a) {
            connection_request = true;
        }
        if str_eq(a, "--elevate") {
            elevate = true;
        }
        if str_eq(a, "--run-as-system") {
            run_as_system = true;
        }
        if str_eq(a, "--quick_support") {
            quick_support = true;
        }
        let ghost before = args.deep_view();
        proof {
            let prefix = dv.skip(1).take(i as int);
            assert(prefix.drop_last() =~= dv.skip(1).take(i - 1));
            assert(prefix.last() == dv[i as int]);
            reveal_with_fuel(Seq::filter, 1);
            assert(prefix.filter(not_launch_flag()) == (if not_launch_flag()(dv[i as int]) {
                before.push(dv[i as int])
            } else {
                before
            }));
        }
        if !is_launch_flag_exec(a) {
            args.push(raw[i].clone());
            assert(args.deep_view() =~= before.push(dv[i as int]));
        }
        i = i + 1;
    }
    proof {
        assert(dv.skip(1).take(i - 1) =~= dv.skip(1));
    }
    ScannedArgs {
        exe,
        args,
        flags: LaunchFlags {
            elevate,
            run_as_system,
            quick_support,
            invoke_new_connection: target.flutter && connection_request,
        },
    }
}


/// Whether some argument in `args` is `a`.
pub fn has_arg(args: &Vec<String>, a: &str) -> (r: bool)
    ensures
        r == args.deep_view().contains(a@),
{
    let ghost dv = args.deep_view();
    let mut i: usize = 0;
    while i < args.len()
        invariant
            dv == args.deep_view(),
            dv.len() == args@.len(),
            i <= args@.len(),
            forall|j: int| 0 <= j < i ==> dv[j] != a@,
        decreases args@.len() - i,
    {
        if str_eq(args[i].as_str(), a) {
            assert(dv[i as int] == a@);
            return true;
        }
        i = i + 1;
    }
    false
}

/// `args` with `--install` appended when the setup executable was started
/// without arguments.
pub open spec fn with_install(args: Seq<Seq<char>>, click_setup: bool) -> Seq<Seq<char>> {
    if click_setup {
        args.push("--install"@)
    } else {
        args
    }
}

/// The command line after the setup rules, and what the Flutter interface
/// is given.
pub struct SetupArgs {
    pub args: Vec<String>,
    pub gui_args: Vec<String>,
    /// The setup executable was started on Windows without arguments.
    pub click_setup: bool,
}

/// A setup executable started on Windows without arguments installs:
/// `--install` is added to the arguments and to what the Flutter interface
/// is given. Then `--noinstall` anywhere among the arguments clears them.
pub fn apply_setup(target: &Target, args: Vec<String>, is_setup_exe: bool) -> (r: SetupArgs)
    ensures
        r.click_setup == (target.os == Os::Windows && args@.len() == 0 && is_setup_exe),
        r.gui_args.deep_view() == (if r.click_setup {
            seq!["--install"@]
        } else {
            Seq::<Seq<char>>::empty()
        }),
        r.args.deep_view() == (if with_install(args.deep_view(), r.click_setup).contains(
            "--noinstall"@,
        ) {
            Seq::<Seq<char>>::empty()
        } else {
            with_install(args.deep_view(), r.click_setup)
        }),
{
    let mut args = args;
    let mut gui_args: Vec<String> = Vec::new();
    let windows = match target.os {
        Os::Windows => true,
        _ => false,
    };
    let click_setup = windows && args.len() == 0 && is_setup_exe;
    let ghost old_args = args.deep_view();
    if click_setup {
        args.push("--install".to_owned());
        gui_args.push("--install".to_owned());
        assert(args.deep_view() =~= old_args.push("--install"@));
        assert(gui_args.deep_view() =~= seq!["--install"@]);
    } else {
        assert(gui_args.deep_view() =~= Seq::<Seq<char>>::empty());
    }
    if has_arg(&args, "--noinstall") {
        args.clear();
        assert(args.deep_view() =~= Seq::<Seq<char>>::empty());
    }
    SetupArgs { args, gui_args, click_setup }
}

/// The first argument is `a`.
pub open spec fn first_is(args: Seq<Seq<char>>, a: Seq<char>) -> bool {
    args.len() > 0 && args[0] == a
}

/// Whether the first argument asks for the first argument `a`.
pub fn first_arg_is(args: &Vec<String>, a: &str) -> (r: bool)
    ensures
        r == first_is(args.deep_view(), a@),
{
    args.len() > 0 && str_eq(args[0].as_str(), a)
}

/// `--version` as the first argument: print the version and stop.
pub fn is_version_request(args: &Vec<String>) -> (r: bool)
    ensures
        r == first_is(args.deep_view(), "--version"@),
{
    first_arg_is(args, "--version")
}

/// The name of the log: the first argument without its dashes when it
/// starts with `--`, else empty.
pub open spec fn log_name_of(args: Seq<Seq<char>>) -> Seq<char> {
    if args.len() > 0 && has_prefix(args[0], "--"@) {
        replaced(args[0], "--"@, Seq::empty())
    } else {
        Seq::empty()
    }
}

/// The name under which the log is kept for this command line.
pub fn log_name(args: &Vec<String>) -> (r: String)
    ensures
        r@ == log_name_of(args.deep_view()),
{
    proof {
        reveal_strlit("--");
        reveal_strlit("");
    }
    if args.len() > 0 && starts_with(args[0].as_str(), "--") {
        assert(args[0]@ == args.deep_view()[0]);
        assert(""@ =~= Seq::<char>::empty());
        replace(args[0].as_str(), "--", "")
    } else {
        String::new()
    }
}

/// A log name never holds two dashes in a row.
pub proof fn lemma_log_name_has_no_double_dash(args: Seq<Seq<char>>)
    ensures
        !has_double_dash(log_name_of(args)),
{
    if args.len() > 0 && has_prefix(args[0], "--"@) {
        lemma_no_double_dash_left(args[0]);
    }
}

/// On a Linux Flutter build, a first argument that starts with
/// `hoptodesk:` is a link that is handed over the session bus.
pub open spec fn dbus_link_of(target: Target, args: Seq<Seq<char>>) -> Option<Seq<char>> {
    if target.os == Os::Linux && target.flutter && args.len() > 0 && has_prefix(
        args[0],
        "hoptodesk:"@,
    ) {
        Some(args[0])
    } else {
        None
    }
}

/// The link to hand over the session bus, if any.
pub fn dbus_link(target: &Target, args: &Vec<String>) -> (r: Option<String>)
    ensures
        r matches Some(l) ==> dbus_link_of(*target, args.deep_view()) == Some(l@),
        r is None ==> dbus_link_of(*target, args.deep_view()) is None,
{
    let linux = match target.os {
        Os::Linux => true,
        _ => false,
    };
    if linux && target.flutter && args.len() > 0 && starts_with(args[0].as_str(), "hoptodesk:") {
        Some(args[0].clone())
    } else {
        None
    }
}

/// On Windows, an uninstalled client started with `--quick_support` and
/// nothing else starts the portable service.
pub fn starts_portable_service(
    target: &Target,
    installed: bool,
    args: &Vec<String>,
    flags: &LaunchFlags,
) -> (r: bool)
    ensures
        r == (target.os == Os::Windows && !installed && args@.len() == 0 && flags.quick_support
            && !flags.elevate && !flags.run_as_system),
{
    let windows = match target.os {
        Os::Windows => true,
        _ => false,
    };
    windows && !installed && args.len() == 0 && flags.quick_support && !flags.elevate
        && !flags.run_as_system
}

/// On Windows, an uninstalled client started with `--elevate` or
/// `--run-as-system` restarts itself elevated or as the system user, and
/// stops.
pub fn needs_elevation(target: &Target, installed: bool, flags: &LaunchFlags) -> (r: bool)
    ensures
        r == (target.os == Os::Windows && !installed && (flags.elevate || flags.run_as_system)),
{
    let windows = match target.os {
        Os::Windows => true,
        _ => false,
    };
    windows && !installed && (flags.elevate || flags.run_as_system)
}

/// On Linux, a client started without arguments while a server runs and no
/// tray does checks its autostart configuration.
pub fn needs_autostart_check(
    target: &Target,
    args: &Vec<String>,
    server_running: bool,
    tray_running: bool,
) -> (r: bool)
    ensures
        r == (target.os == Os::Linux && args@.len() == 0 && server_running && !tray_running),
{
    let linux = match target.os {
        Os::Linux => true,
        _ => false,
    };
    linux && args.len() == 0 && server_running && !tray_running
}

/// What the plugin framework does at start.
#[derive(Clone, Copy, Debug, PartialEq, Eq, Structural)]
pub enum PluginAction {
    /// Load the plugins.
    Load,
    /// Remove the plugins marked for removal.
    RemoveUninstalled,
    /// Nothing.
    Nothing,
}

/// The plugin action for a command line: plugins are loaded for the server
/// (no argument or `--server`) when `load_plugins` (a debug build, or an
/// installed client), and cleaned up for `--service`. Only builds with
/// Flutter and the plugin framework have plugins.
pub open spec fn plugin_action_of(target: Target, args: Seq<Seq<char>>, load_plugins: bool) -> PluginAction {
    if !(target.flutter && target.plugin_framework) {
        PluginAction::Nothing
    } else if args.len() == 0 || args[0] == "--server"@ {
        if load_plugins {
            PluginAction::Load
        } else {
            PluginAction::Nothing
        }
    } else if args[0] == "--service"@ {
        PluginAction::RemoveUninstalled
    } else {
        PluginAction::Nothing
    }
}

/// What the plugin framework does for this command line.
pub fn init_plugins(target: &Target, args: &Vec<String>, load_plugins: bool) -> (r: PluginAction)
    ensures
        r == plugin_action_of(*target, args.deep_view(), load_plugins),
{
    if !(target.flutter && target.plugin_framework) {
        PluginAction::Nothing
    } else if args.len() == 0 || str_eq(args[0].as_str(), "--server") {
        if load_plugins {
            PluginAction::Load
        } else {
            PluginAction::Nothing
        }
    } else if str_eq(args[0].as_str(), "--service") {
        PluginAction::RemoveUninstalled
    } else {
        PluginAction::Nothing
    }
}

/// What the user interface is given when it starts: the Flutter interface
/// gets only what the setup rules added, the other interface the arguments
/// as they stand.
pub fn gui_args(target: &Target, args: Vec<String>, setup_gui_args: Vec<String>) -> (r: Vec<String>)
    ensures
        r == (if target.flutter { setup_gui_args } else { args }),
{
    if target.flutter {
        setup_gui_args
    } else {
        args
    }
}

} // verus!

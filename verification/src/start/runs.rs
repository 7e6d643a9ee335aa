//! Whole runs of the start: what it does from its first step on, for every
//! sequence of replies the host may give.

use vstd::prelude::*;
use crate::command::{command_of, lemma_connect_opens_gui, Command};
use crate::invoke::new_connection_link_of;
use crate::launch::{
    forwarded_args, is_launch_flag, log_name_of, not_launch_flag, passes, Os, Target,
};
use crate::links::{connect_line, lemma_connect_link_pieces, LinkKind};
use crate::start::{
    app_ext, at, initial, lemma_flutter_results, lemma_initial_wf, lemma_new_connection_results,
    lemma_step_keeps_wf, next, rewritten, start_wf, team_id_next, yes, ActionModel, Reply, Stage,
    StartModel,
};
use crate::text::byte_len;

verus! {

/// The state reached and the actions taken when the start is given
/// `replies`, one per step.
pub open spec fn run(m: StartModel, replies: Seq<Reply>) -> (StartModel, Seq<ActionModel>)
    decreases replies.len(),
{
    if replies.len() == 0 {
        (m, Seq::empty())
    } else {
        let (m1, a) = next(m, replies[0]);
        let rest = run(m1, replies.skip(1));
        (rest.0, seq![a] + rest.1)
    }
}

/// Running on `a` and then on `b` is running on `a + b`.
pub proof fn lemma_run_append(m: StartModel, a: Seq<Reply>, b: Seq<Reply>)
    ensures
        run(m, a + b).0 == run(run(m, a).0, b).0,
        run(m, a + b).1 == run(m, a).1 + run(run(m, a).0, b).1,
    decreases a.len(),
{
    if a.len() > 0 {
        let m1 = next(m, a[0]).0;
        assert((a + b).skip(1) =~= a.skip(1) + b);
        lemma_run_append(m1, a.skip(1), b);
        assert(run(m, a + b).1 =~= run(m, a).1 + run(run(m, a).0, b).1);
    } else {
        assert(a + b =~= b);
    }
}

/// A run keeps the start well formed, and keeps its build, command line
/// and application name.
pub proof fn lemma_run_keeps_wf(m: StartModel, replies: Seq<Reply>)
    requires
        start_wf(m),
    ensures
        start_wf(run(m, replies).0),
        run(m, replies).0.target == m.target,
        run(m, replies).0.raw == m.raw,
        run(m, replies).0.app_name == m.app_name,
    decreases replies.len(),
{
    if replies.len() > 0 {
        lemma_step_keeps_wf(m, replies[0]);
        lemma_run_keeps_wf(next(m, replies[0]).0, replies.skip(1));
    }
}

/// Whatever the host replied so far, a Flutter build ends its start with
/// nothing, with no arguments, or with `--install` alone; the last only on
/// Windows, when the command line held no argument and the host said that
/// the executable is the setup executable.
pub proof fn lemma_flutter_start_ends(
    target: Target,
    raw: Seq<Seq<char>>,
    app_name: Seq<char>,
    replies: Seq<Reply>,
    reply: Reply,
)
    requires
        target.flutter,
    ensures
        ({
            let m = run(initial(target, raw, app_name), replies).0;
            match next(m, reply).1 {
                ActionModel::Finish(Some(v)) => v.len() == 0 || (v == seq!["--install"@]
                    && target.os == Os::Windows && forwarded_args(raw).len() == 0
                    && m.exe_is_setup),
                _ => true,
            }
        }),
{
    let m0 = initial(target, raw, app_name);
    lemma_initial_wf(target, raw, app_name);
    lemma_run_keeps_wf(m0, replies);
    lemma_flutter_results(run(m0, replies).0, reply);
}

/// Whatever the host replied so far, a start that asks a running client
/// for a new connection ends with nothing or with no arguments: with no
/// arguments only when the link was built (a non-empty peer id followed
/// the request), was handed over, and the running client did not take it.
pub proof fn lemma_new_connection_start_ends(
    target: Target,
    raw: Seq<Seq<char>>,
    app_name: Seq<char>,
    replies: Seq<Reply>,
    reply: Reply,
)
    ensures
        ({
            let m = run(initial(target, raw, app_name), replies).0;
            m.flags.invoke_new_connection ==> match next(m, reply).1 {
                ActionModel::Finish(Some(v)) => v.len() == 0 && m.stage == Stage::LinkSent && !yes(
                    reply,
                ) && new_connection_link_of(raw, app_ext(m)) is Ok,
                _ => true,
            }
        }),
{
    let m0 = initial(target, raw, app_name);
    lemma_initial_wf(target, raw, app_name);
    lemma_run_keeps_wf(m0, replies);
    let m = run(m0, replies).0;
    if m.flags.invoke_new_connection {
        lemma_new_connection_results(m, reply);
    }
}

/// The actions of a start without the Flutter interface whose command line
/// is `--connect` and a connect link with every piece: start the log, log
/// the arguments, store the team id when it is 16 bytes long, store the
/// token, and open the user interface with `--connect <id> <password>`.
/// Windows asks in between whether the client is installed; Windows and
/// macOS prepare the directory of the team id file.
pub open spec fn connect_run(
    os: Os,
    id: Seq<char>,
    password: Seq<char>,
    team_id: Seq<char>,
    token: Seq<char>,
) -> Seq<ActionModel> {
    seq![
        ActionModel::RegisterBreakdownHandler,
        ActionModel::InitLog(log_name_of(connect_line(id, password, team_id, token))),
    ] + (if os == Os::Windows {
        seq![ActionModel::AskInstalled]
    } else {
        Seq::empty()
    }) + seq![ActionModel::LogArgs(connect_line(id, password, team_id, token))]
        + connect_tail(os, id, password, team_id, token)
}

/// What a start without the Flutter interface does once it logged a
/// `--connect` command line with a connect link.
pub open spec fn connect_tail(
    os: Os,
    id: Seq<char>,
    password: Seq<char>,
    team_id: Seq<char>,
    token: Seq<char>,
) -> Seq<ActionModel> {
    (if os == Os::Windows || os == Os::MacOs {
        seq![ActionModel::PrepareTeamIdDir]
    } else {
        Seq::empty()
    }) + (if byte_len(team_id) == 16 {
        seq![ActionModel::StoreTeamId(team_id)]
    } else {
        Seq::empty()
    }) + seq![
        ActionModel::StoreToken(token),
        ActionModel::Run(Command::Gui, seq!["--connect"@, id, password]),
        ActionModel::Finish(Some(seq!["--connect"@, id, password])),
    ]
}

/// Neither `--connect` nor a connect link is a launch flag.
proof fn lemma_connect_line_no_flags(line: Seq<Seq<char>>, link: Seq<char>)
    requires
        line == seq!["--connect"@, link],
        link.len() > 0 && link[0] == 'h',
    ensures
        !is_launch_flag(line[0]),
        !is_launch_flag(line[1]),
        line[0] != "--version"@,
        line[0] != "--noinstall"@ && line[1] != "--noinstall"@,
{
    reveal_strlit("--connect");
    reveal_strlit("--elevate");
    reveal_strlit("--run-as-system");
    reveal_strlit("--quick_support");
    reveal_strlit("--version");
    reveal_strlit("--noinstall");
    assert(line[0][2] != "--elevate"@[2]);
    assert(line[0][2] != "--version"@[2]);
    assert(line[0].len() != "--run-as-system"@.len());
    assert(line[0].len() != "--quick_support"@.len());
    assert(line[0].len() != "--noinstall"@.len());
    assert(line[1][0] != "--elevate"@[0]);
    assert(line[1][0] != "--run-as-system"@[0]);
    assert(line[1][0] != "--quick_support"@[0]);
    assert(line[1][0] != "--noinstall"@[0]);
}

/// From the team id on: store the team id when there is one, store the
/// token, run the user interface's command and open the interface.
#[verifier::rlimit(40)]
proof fn lemma_connect_from_team(
    x: StartModel,
    id: Seq<char>,
    password: Seq<char>,
    team_id: Seq<char>,
    token: Seq<char>,
    q: Seq<Reply>,
)
    requires
        !x.target.flutter,
        x.args == seq!["--connect"@, id, password],
        x.team_id == (if byte_len(team_id) == 16 {
            Some(team_id)
        } else {
            None
        }),
        x.token == Some(token),
        command_of(x.target, x.args) == Command::Gui,
        q.len() == (if byte_len(team_id) == 16 {
            3int
        } else {
            2int
        }),
    ensures
        seq![team_id_next(x).1] + run(team_id_next(x).0, q).1 == (if byte_len(team_id) == 16 {
            seq![ActionModel::StoreTeamId(team_id)]
        } else {
            Seq::empty()
        }) + seq![
            ActionModel::StoreToken(token),
            ActionModel::Run(Command::Gui, x.args),
            ActionModel::Finish(Some(x.args)),
        ],
        run(team_id_next(x).0, q).0.stage == Stage::Done,
{
    reveal_with_fuel(run, 4);
    let a = x.args;
    let (y, b) = team_id_next(x);
    if byte_len(team_id) == 16 {
        assert(b == ActionModel::StoreTeamId(team_id));
        let (y2, b2) = next(y, q[0]);
        assert(b2 == ActionModel::StoreToken(token));
        let q1 = q.skip(1);
        let (y3, b3) = next(y2, q1[0]);
        assert(b3 == ActionModel::Run(Command::Gui, a));
        let q2 = q1.skip(1);
        let (y4, b4) = next(y3, q2[0]);
        assert(b4 == ActionModel::Finish(Some(a)));
        assert(q2.skip(1).len() == 0);
        assert(run(y, q).1 =~= seq![b2, b3, b4]);
        assert(seq![b] + run(y, q).1 =~= seq![ActionModel::StoreTeamId(team_id)] + seq![
            ActionModel::StoreToken(token),
            ActionModel::Run(Command::Gui, a),
            ActionModel::Finish(Some(a)),
        ]);
    } else {
        assert(b == ActionModel::StoreToken(token));
        let (y2, b2) = next(y, q[0]);
        assert(b2 == ActionModel::Run(Command::Gui, a));
        let q1 = q.skip(1);
        let (y3, b3) = next(y2, q1[0]);
        assert(b3 == ActionModel::Finish(Some(a)));
        assert(q1.skip(1).len() == 0);
        assert(run(y, q).1 =~= seq![b2, b3]);
        assert(seq![b] + run(y, q).1 =~= Seq::<ActionModel>::empty() + seq![
            ActionModel::StoreToken(token),
            ActionModel::Run(Command::Gui, a),
            ActionModel::Finish(Some(a)),
        ]);
    }
}

/// From the logged `--connect` command line on: read the link, store what
/// it holds, and open the user interface.
proof fn lemma_connect_tail(
    m: StartModel,
    id: Seq<char>,
    password: Seq<char>,
    team_id: Seq<char>,
    token: Seq<char>,
    q: Seq<Reply>,
)
    requires
        !m.target.flutter,
        m.stage == Stage::ArgsLogged,
        m.args == connect_line(id, password, team_id, token),
        !id.contains('/'),
        !password.contains('/'),
        !team_id.contains('/'),
        q.len() == connect_tail(m.target.os, id, password, team_id, token).len(),
    ensures
        run(m, q).1 == connect_tail(m.target.os, id, password, team_id, token),
        run(m, q).0.stage == Stage::Done,
{
    reveal_with_fuel(run, 3);
    let line = connect_line(id, password, team_id, token);
    reveal_strlit("--connect");
    lemma_connect_link_pieces(id, password, team_id, token);
    lemma_connect_opens_gui(m.target, line);
    let r = rewritten(m);
    assert(r.args == seq!["--connect"@, id, password]);
    assert(r.kind == LinkKind::Connect);
    let (m1, a1) = next(m, q[0]);
    let q1 = q.skip(1);
    if m.target.os == Os::Windows || m.target.os == Os::MacOs {
        assert(a1 == ActionModel::PrepareTeamIdDir);
        assert(m1 == at(r, Stage::TeamDirPrepared));
        let x = m1;
        assert(next(x, q1[0]) == team_id_next(x));
        lemma_connect_from_team(x, id, password, team_id, token, q1.skip(1));
        assert(run(m, q).1 =~= seq![a1] + (seq![team_id_next(x).1] + run(
            team_id_next(x).0,
            q1.skip(1),
        ).1));
        assert(run(m, q).1 =~= connect_tail(m.target.os, id, password, team_id, token));
    } else {
        assert(next(m, q[0]) == team_id_next(r));
        lemma_connect_from_team(r, id, password, team_id, token, q1);
        assert(run(m, q).1 =~= connect_tail(m.target.os, id, password, team_id, token));
    }
}

/// The first steps on a `--connect` command line with a connect link,
/// without the Flutter interface: up to the logged arguments.
proof fn lemma_connect_head(
    target: Target,
    exe: Seq<char>,
    app_name: Seq<char>,
    line: Seq<Seq<char>>,
    q: Seq<Reply>,
)
    requires
        !target.flutter,
        line.len() == 2,
        line[0] == "--connect"@,
        line[1].len() > 0 && line[1][0] == 'h',
        q.len() == (if target.os == Os::Windows {
            4int
        } else {
            3int
        }),
    ensures
        ({
            let r = run(initial(target, seq![exe] + line, app_name), q);
            &&& r.1 == seq![
                ActionModel::RegisterBreakdownHandler,
                ActionModel::InitLog(log_name_of(line)),
            ] + (if target.os == Os::Windows {
                seq![ActionModel::AskInstalled]
            } else {
                Seq::empty()
            }) + seq![ActionModel::LogArgs(line)]
            &&& r.0.stage == Stage::ArgsLogged
            &&& r.0.args == line
            &&& r.0.target == target
        }),
{
    reveal_with_fuel(run, 5);
    let raw = seq![exe] + line;
    assert(line =~= seq!["--connect"@, line[1]]);
    lemma_connect_line_no_flags(line, line[1]);
    let p = not_launch_flag();
    assert(p(line[0]) && p(line[1]));
    reveal_with_fuel(Seq::<_>::filter, 3);
    let e = Seq::<Seq<char>>::empty();
    assert(raw.skip(1) =~= line);
    assert(e.filter(p) =~= e);
    assert(seq![line[0]].drop_last() =~= e);
    assert(seq![line[0]].last() == line[0]);
    assert(line.last() == line[1]);
    assert(seq![line[0]].filter(p) =~= seq![line[0]]);
    assert(line.drop_last() =~= seq![line[0]]);
    assert(line.filter(p) =~= line);
    assert(forwarded_args(raw) == line);
    assert(raw[1] == line[0] && raw[2] == line[1]);
    assert(!passes(raw, "--elevate"@));
    assert(!passes(raw, "--run-as-system"@));
    assert(!passes(raw, "--quick_support"@));
    assert(!line.contains("--noinstall"@));
    let m0 = initial(target, raw, app_name);
    let (m1, a1) = next(m0, q[0]);
    assert(a1 == ActionModel::RegisterBreakdownHandler);
    assert(m1.stage == Stage::BreakdownRegistered && m1.args == line);
    let q1 = q.skip(1);
    let (m2, a2) = next(m1, q1[0]);
    assert(a2 == ActionModel::InitLog(log_name_of(line)));
    assert(m2.stage == Stage::LogStarted && m2.args == line);
    let q2 = q1.skip(1);
    let (m3, a3) = next(m2, q2[0]);
    let q3 = q2.skip(1);
    if target.os == Os::Windows {
        assert(a3 == ActionModel::AskInstalled);
        let (m4, a4) = next(m3, q3[0]);
        assert(a4 == ActionModel::LogArgs(line));
        assert(run(m0, q).1 =~= seq![a1, a2, a3, a4]);
    } else {
        assert(a3 == ActionModel::LogArgs(line));
        assert(run(m0, q).1 =~= seq![a1, a2, a3]);
    }
}

/// A start without the Flutter interface, given `--connect` and a connect
/// link `hoptodesk://connect/<id>/<password>/<team id>/<token>` whose id,
/// password and team id hold no slash, does this whatever the host
/// replies: it stores the token as it stands (slashes included), stores
/// the team id exactly when it is 16 bytes long, and opens the user
/// interface with `--connect <id> <password>`.
pub proof fn lemma_connect_link_run(
    target: Target,
    exe: Seq<char>,
    app_name: Seq<char>,
    id: Seq<char>,
    password: Seq<char>,
    team_id: Seq<char>,
    token: Seq<char>,
    replies: Seq<Reply>,
)
    requires
        !target.flutter,
        !id.contains('/'),
        !password.contains('/'),
        !team_id.contains('/'),
        replies.len() == connect_run(target.os, id, password, team_id, token).len(),
    ensures
        ({
            let r = run(
                initial(target, seq![exe] + connect_line(id, password, team_id, token), app_name),
                replies,
            );
            &&& r.1 == connect_run(target.os, id, password, team_id, token)
            &&& r.0.stage == Stage::Done
        }),
{
    let line = connect_line(id, password, team_id, token);
    reveal_strlit("hoptodesk://connect/");
    assert(line[1][0] == 'h');
    let n: int = if target.os == Os::Windows {
        4
    } else {
        3
    };
    let m0 = initial(target, seq![exe] + line, app_name);
    let a = replies.take(n);
    let b = replies.skip(n);
    assert(replies =~= a + b);
    lemma_connect_head(target, exe, app_name, line, a);
    let mid = run(m0, a).0;
    lemma_connect_tail(mid, id, password, team_id, token, b);
    lemma_run_append(m0, a, b);
    assert(run(m0, replies).1 =~= connect_run(target.os, id, password, team_id, token));
}

/// The actions of an update once the host said that there is an update
/// path: when the client is installed, put this executable in place of the
/// installed one; end the running clients, and when that succeeded put this
/// executable at the update path; start the service again when the client
/// is installed; run the updated executable; end the process.
pub open spec fn update_run(installed: bool, ended: bool) -> Seq<ActionModel> {
    seq![ActionModel::AskInstalled] + (if installed {
        seq![ActionModel::ReplaceInstalled]
    } else {
        Seq::empty()
    }) + seq![ActionModel::EndClients] + (if ended {
        seq![ActionModel::ReplaceAtUpdatePath]
    } else {
        Seq::empty()
    }) + (if installed {
        seq![ActionModel::StartService]
    } else {
        Seq::empty()
    }) + seq![ActionModel::RunUpdated, ActionModel::Exit]
}

/// An update that found its update path does what [`update_run`] says,
/// with `installed` the host's answer whether the client is installed and
/// `ended` whether ending the running clients succeeded; without an update
/// path it ends the process at once.
pub proof fn lemma_update_run(m: StartModel, installed: bool, ended: bool, q: Seq<Reply>)
    requires
        m.stage == Stage::UpdatePathAsked,
        q.len() == update_run(installed, ended).len(),
        q[0] == Reply::Answer(true),
        q[1] == Reply::Answer(installed),
        q[if installed {
            3int
        } else {
            2int
        }] == Reply::Answer(ended),
    ensures
        run(m, q).1 == update_run(installed, ended),
        run(m, q).0.stage == Stage::Done,
        next(m, Reply::Answer(false)) == (at(m, Stage::Done), ActionModel::Exit),
{
    if installed {
        if ended {
            lemma_update_ie(m, q);
        } else {
            lemma_update_if(m, q);
        }
    } else {
        if ended {
            lemma_update_ne(m, q);
        } else {
            lemma_update_nf(m, q);
        }
    }
}

/// The four cases of [`lemma_update_run`]: the client installed (`i`) or
/// not (`n`), ending the running clients succeeded (`e`) or failed (`f`).
proof fn lemma_update_ie(m: StartModel, q: Seq<Reply>)
    requires
        m.stage == Stage::UpdatePathAsked,
        q.len() == 7,
        q[0] == Reply::Answer(true),
        q[1] == Reply::Answer(true),
        q[3] == Reply::Answer(true),
    ensures
        run(m, q).1 == update_run(true, true),
        run(m, q).0.stage == Stage::Done,
{
    let q0 = q;
    let m0 = m;
    let m1 = next(m0, q0[0]).0;
    let q1 = q0.skip(1);
    assert(m1.stage == Stage::UpdateInstalledAsked);
    let m2 = next(m1, q1[0]).0;
    let q2 = q1.skip(1);
    assert(m2.stage == Stage::InstalledReplaced);
    let m3 = next(m2, q2[0]).0;
    let q3 = q2.skip(1);
    assert(m3.stage == Stage::ClientsEnded);
    let m4 = next(m3, q3[0]).0;
    let q4 = q3.skip(1);
    assert(m4.stage == Stage::UpdatePathReplaced);
    let m5 = next(m4, q4[0]).0;
    let q5 = q4.skip(1);
    assert(m5.stage == Stage::ServiceStarted);
    let m6 = next(m5, q5[0]).0;
    let q6 = q5.skip(1);
    assert(m6.stage == Stage::UpdatedRun);
    let m7 = next(m6, q6[0]).0;
    let q7 = q6.skip(1);
    assert(m7.stage == Stage::Done);
    lemma_run_cons(m6, q6);
    lemma_run_cons(m5, q5);
    lemma_run_cons(m4, q4);
    lemma_run_cons(m3, q3);
    lemma_run_cons(m2, q2);
    lemma_run_cons(m1, q1);
    lemma_run_cons(m0, q0);
    assert(run(m, q).1 =~= update_run(true, true));
}

proof fn lemma_update_if(m: StartModel, q: Seq<Reply>)
    requires
        m.stage == Stage::UpdatePathAsked,
        q.len() == 6,
        q[0] == Reply::Answer(true),
        q[1] == Reply::Answer(true),
        q[3] == Reply::Answer(false),
    ensures
        run(m, q).1 == update_run(true, false),
        run(m, q).0.stage == Stage::Done,
{
    let q0 = q;
    let m0 = m;
    let m1 = next(m0, q0[0]).0;
    let q1 = q0.skip(1);
    assert(m1.stage == Stage::UpdateInstalledAsked);
    let m2 = next(m1, q1[0]).0;
    let q2 = q1.skip(1);
    assert(m2.stage == Stage::InstalledReplaced);
    let m3 = next(m2, q2[0]).0;
    let q3 = q2.skip(1);
    assert(m3.stage == Stage::ClientsEnded);
    let m4 = next(m3, q3[0]).0;
    let q4 = q3.skip(1);
    assert(m4.stage == Stage::ServiceStarted);
    let m5 = next(m4, q4[0]).0;
    let q5 = q4.skip(1);
    assert(m5.stage == Stage::UpdatedRun);
    let m6 = next(m5, q5[0]).0;
    let q6 = q5.skip(1);
    assert(m6.stage == Stage::Done);
    lemma_run_cons(m5, q5);
    lemma_run_cons(m4, q4);
    lemma_run_cons(m3, q3);
    lemma_run_cons(m2, q2);
    lemma_run_cons(m1, q1);
    lemma_run_cons(m0, q0);
    assert(run(m, q).1 =~= update_run(true, false));
}

proof fn lemma_update_ne(m: StartModel, q: Seq<Reply>)
    requires
        m.stage == Stage::UpdatePathAsked,
        q.len() == 5,
        q[0] == Reply::Answer(true),
        q[1] == Reply::Answer(false),
        q[2] == Reply::Answer(true),
    ensures
        run(m, q).1 == update_run(false, true),
        run(m, q).0.stage == Stage::Done,
{
    let q0 = q;
    let m0 = m;
    let m1 = next(m0, q0[0]).0;
    let q1 = q0.skip(1);
    assert(m1.stage == Stage::UpdateInstalledAsked);
    let m2 = next(m1, q1[0]).0;
    let q2 = q1.skip(1);
    assert(m2.stage == Stage::ClientsEnded);
    let m3 = next(m2, q2[0]).0;
    let q3 = q2.skip(1);
    assert(m3.stage == Stage::UpdatePathReplaced);
    let m4 = next(m3, q3[0]).0;
    let q4 = q3.skip(1);
    assert(m4.stage == Stage::UpdatedRun);
    let m5 = next(m4, q4[0]).0;
    let q5 = q4.skip(1);
    assert(m5.stage == Stage::Done);
    lemma_run_cons(m4, q4);
    lemma_run_cons(m3, q3);
    lemma_run_cons(m2, q2);
    lemma_run_cons(m1, q1);
    lemma_run_cons(m0, q0);
    assert(run(m, q).1 =~= update_run(false, true));
}

proof fn lemma_update_nf(m: StartModel, q: Seq<Reply>)
    requires
        m.stage == Stage::UpdatePathAsked,
        q.len() == 4,
        q[0] == Reply::Answer(true),
        q[1] == Reply::Answer(false),
        q[2] == Reply::Answer(false),
    ensures
        run(m, q).1 == update_run(false, false),
        run(m, q).0.stage == Stage::Done,
{
    let q0 = q;
    let m0 = m;
    let m1 = next(m0, q0[0]).0;
    let q1 = q0.skip(1);
    assert(m1.stage == Stage::UpdateInstalledAsked);
    let m2 = next(m1, q1[0]).0;
    let q2 = q1.skip(1);
    assert(m2.stage == Stage::ClientsEnded);
    let m3 = next(m2, q2[0]).0;
    let q3 = q2.skip(1);
    assert(m3.stage == Stage::UpdatedRun);
    let m4 = next(m3, q3[0]).0;
    let q4 = q3.skip(1);
    assert(m4.stage == Stage::Done);
    lemma_run_cons(m3, q3);
    lemma_run_cons(m2, q2);
    lemma_run_cons(m1, q1);
    lemma_run_cons(m0, q0);
    assert(run(m, q).1 =~= update_run(false, false));
}

/// One step of a run.
pub proof fn lemma_run_cons(m: StartModel, q: Seq<Reply>)
    requires
        q.len() > 0,
    ensures
        run(m, q).0 == run(next(m, q[0]).0, q.skip(1)).0,
        run(m, q).1 == seq![next(m, q[0]).1] + run(next(m, q[0]).0, q.skip(1)).1,
{
}

/// The actions of an uninstalled Windows client started with only
/// `--quick_support`, when no server runs and the executable is not the
/// setup executable: the portable service starts, and the start goes on to
/// the background server and opens the user interface.
pub open spec fn quick_support_run(exe: Seq<char>) -> Seq<ActionModel> {
    seq![
        ActionModel::AskServerRunning,
        ActionModel::RegisterBreakdownHandler,
        ActionModel::AskIsSetup(exe),
        ActionModel::InitLog(Seq::empty()),
        ActionModel::AskInstalled,
        ActionModel::StartPortableService,
        ActionModel::LogArgs(Seq::empty()),
        ActionModel::Run(Command::BackgroundServer, Seq::empty()),
        ActionModel::Finish(Some(Seq::empty())),
    ]
}

/// `--quick_support` is a launch flag and no connection request.
proof fn lemma_quick_support_flag(raw: Seq<Seq<char>>, exe: Seq<char>)
    requires
        raw == seq![exe, "--quick_support"@],
    ensures
        forwarded_args(raw) == Seq::<Seq<char>>::empty(),
        passes(raw, "--quick_support"@),
        !passes(raw, "--elevate"@),
        !passes(raw, "--run-as-system"@),
        !crate::launch::passes_connection_request(raw),
{
    reveal_strlit("--quick_support");
    reveal_strlit("--elevate");
    reveal_strlit("--run-as-system");
    reveal_strlit("--connect");
    reveal_strlit("--play");
    reveal_strlit("--file-transfer");
    reveal_strlit("--port-forward");
    reveal_strlit("--rdp");
    let q = "--quick_support"@;
    assert(raw[1] == q);
    assert(q.len() != "--elevate"@.len());
    assert(q[2] != "--run-as-system"@[2]);
    assert(q[2] != "--file-transfer"@[2]);
    assert(q.len() != "--connect"@.len());
    assert(q.len() != "--play"@.len());
    assert(q.len() != "--port-forward"@.len());
    assert(q.len() != "--rdp"@.len());
    let p = not_launch_flag();
    assert(!p(q));
    reveal_with_fuel(Seq::<_>::filter, 2);
    let e = Seq::<Seq<char>>::empty();
    assert(raw.skip(1) =~= seq![q]);
    assert(e.filter(p) =~= e);
    assert(seq![q].drop_last() =~= e);
    assert(seq![q].last() == q);
    assert(seq![q].filter(p) =~= e);
}

/// An uninstalled Windows client (without the plugin framework) started
/// with only `--quick_support` starts the portable service and goes on: it
/// runs the background server and opens the user interface with no
/// arguments, when no server runs and the executable is not the setup
/// executable; the other replies do not matter.
#[verifier::rlimit(60)]
pub proof fn lemma_quick_support_run(
    target: Target,
    exe: Seq<char>,
    app_name: Seq<char>,
    q: Seq<Reply>,
)
    requires
        target.os == Os::Windows,
        !target.plugin_framework,
        q.len() == 9,
        q[1] == Reply::Answer(false),
        q[3] == Reply::Answer(false),
        q[5] == Reply::Answer(false),
    ensures
        ({
            let r = run(initial(target, seq![exe, "--quick_support"@], app_name), q);
            &&& r.1 == quick_support_run(exe)
            &&& r.0.stage == Stage::Done
        }),
{
    let raw = seq![exe, "--quick_support"@];
    lemma_quick_support_flag(raw, exe);
    let q0 = q;
    let m0 = initial(target, raw, app_name);
    let m1 = next(m0, q0[0]).0;
    let q1 = q0.skip(1);
    assert(m1.stage == Stage::ServerAsked && m1.args.len() == 0);
    assert(m1.flags.quick_support && !m1.flags.elevate && !m1.flags.run_as_system);
    assert(!m1.flags.invoke_new_connection && m1.exe == exe);
    let m2 = next(m1, q1[0]).0;
    let q2 = q1.skip(1);
    assert(m2.stage == Stage::BreakdownRegistered);
    let m3 = next(m2, q2[0]).0;
    let q3 = q2.skip(1);
    assert(m3.stage == Stage::SetupAsked);
    let m4 = next(m3, q3[0]).0;
    let q4 = q3.skip(1);
    assert(m4.stage == Stage::LogStarted && m4.args.len() == 0 && !m4.click_setup);
    assert(m4.gui.len() == 0);
    let m5 = next(m4, q4[0]).0;
    let q5 = q4.skip(1);
    assert(m5.stage == Stage::InstalledAsked);
    let m6 = next(m5, q5[0]).0;
    let q6 = q5.skip(1);
    assert(m6.stage == Stage::PortableStarted && !m6.installed);
    let m7 = next(m6, q6[0]).0;
    let q7 = q6.skip(1);
    assert(m7.stage == Stage::ArgsLogged && m7.args.len() == 0);
    let m8 = next(m7, q7[0]).0;
    let q8 = q7.skip(1);
    assert(crate::links::link_kind_of(m7.args) == LinkKind::NoLink);
    assert(m8.stage == Stage::CommandRun && m8.command == Command::BackgroundServer);
    let m9 = next(m8, q8[0]).0;
    let q9 = q8.skip(1);
    assert(m9.stage == Stage::Done && q9.len() == 0);
    lemma_run_cons(m8, q8);
    lemma_run_cons(m7, q7);
    lemma_run_cons(m6, q6);
    lemma_run_cons(m5, q5);
    lemma_run_cons(m4, q4);
    lemma_run_cons(m3, q3);
    lemma_run_cons(m2, q2);
    lemma_run_cons(m1, q1);
    lemma_run_cons(m0, q0);
    assert(run(m0, q).1 =~= quick_support_run(exe));
}

} // verus!

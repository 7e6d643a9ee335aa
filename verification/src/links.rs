//! Deep links (`hoptodesk://...`) given on the command line.

use vstd::prelude::*;
use vstd::string::StringExecFns;
use crate::text::{
    byte_len, has_prefix, lemma_split_n_first, lemma_split_n_len, opt_view, split_n, splitn,
    starts_with, str_eq, strip_prefix,
};

verus! {

/// Every character of `s` is a slash.
pub open spec fn only_slashes(s: Seq<char>) -> bool {
    forall|i: int| 0 <= i < s.len() ==> s[i] == '/'
}

/// A link with the scheme and nothing but slashes after it, such as
/// `hoptodesk://` or `hoptodesk:///`.
pub open spec fn is_empty_link(arg: Seq<char>) -> bool {
    has_prefix(arg, "hoptodesk://"@) && only_slashes(arg.skip("hoptodesk://"@.len() as int))
}

/// Whether `arg` is a link with nothing after the scheme but slashes.
pub fn is_empty_uni_link(arg: &str) -> (r: bool)
    ensures
        r == is_empty_link(arg@),
{
    match strip_prefix(arg, "hoptodesk://") {
        None => false,
        Some(rest) => {
            let cs = crate::text::chars_of(rest.as_str());
            let mut i: usize = 0;
            while i < cs.len()
                invariant
                    cs@ == rest@,
                    rest@ == arg@.skip("hoptodesk://"@.len() as int),
                    has_prefix(arg@, "hoptodesk://"@),
                    i <= cs@.len(),
                    forall|j: int| 0 <= j < i ==> cs@[j] == '/',
                decreases cs@.len() - i,
            {
                if cs[i] != '/' {
                    assert(!only_slashes(rest@)) by {
                        assert(rest@[i as int] != '/');
                    }
                    return false;
                }
                i = i + 1;
            }
            true
        },
    }
}

/// The kinds of deep link that `--connect <link>` accepts.
#[derive(Clone, Copy, Debug, PartialEq, Eq, Structural)]
pub enum LinkKind {
    /// Not a deep link that is rewritten.
    NoLink,
    /// `hoptodesk://connect/<id>[/<password>[/<team id>[/<token>]]]`
    Connect,
    /// `hoptodesk://filetransfer/<id>`
    FileTransfer,
    /// `hoptodesk://sync/<id>`
    Sync,
}

/// The kind of deep link that the command line carries after `--connect`.
pub open spec fn link_kind_of(args: Seq<Seq<char>>) -> LinkKind {
    if args.len() >= 2 && args[0] == "--connect"@ && args[1] != "hoptodesk:///"@ {
        if has_prefix(args[1], "hoptodesk://connect/"@) {
            LinkKind::Connect
        } else if has_prefix(args[1], "hoptodesk://filetransfer/"@) {
            LinkKind::FileTransfer
        } else if has_prefix(args[1], "hoptodesk://sync/"@) {
            LinkKind::Sync
        } else {
            LinkKind::NoLink
        }
    } else {
        LinkKind::NoLink
    }
}

/// The pieces of a connect link after its prefix: id, password, team id and
/// token, separated by slashes; the token keeps any further slashes.
pub open spec fn connect_parts(args: Seq<Seq<char>>) -> Seq<Seq<char>> {
    split_n(args[1].skip("hoptodesk://connect/"@.len() as int), 4, '/')
}

/// The peer id of a file transfer link.
pub open spec fn file_transfer_id(args: Seq<Seq<char>>) -> Seq<char> {
    args[1].skip("hoptodesk://filetransfer/"@.len() as int)
}

/// The id of a sync link.
pub open spec fn sync_id(args: Seq<Seq<char>>) -> Seq<char> {
    args[1].skip("hoptodesk://sync/"@.len() as int)
}

/// The command line after its deep link is read: a connect link puts the
/// id in place of the link and appends the password, a file transfer link
/// becomes `--file-transfer <id>`, a sync link puts its id in place of the
/// link.
pub open spec fn rewritten_args(args: Seq<Seq<char>>) -> Seq<Seq<char>> {
    match link_kind_of(args) {
        LinkKind::NoLink => args,
        LinkKind::Connect => {
            let parts = connect_parts(args);
            let with_id = args.update(1, parts[0]);
            if parts.len() > 1 {
                with_id.push(parts[1])
            } else {
                with_id
            }
        },
        LinkKind::FileTransfer => args.update(1, file_transfer_id(args)).update(
            0,
            "--file-transfer"@,
        ),
        LinkKind::Sync => args.update(1, sync_id(args)),
    }
}

/// The team id of a connect link, kept only when it is 16 bytes long.
pub open spec fn team_id_of(args: Seq<Seq<char>>) -> Option<Seq<char>> {
    if link_kind_of(args) == LinkKind::Connect && connect_parts(args).len() > 2 && byte_len(
        connect_parts(args)[2],
    ) == 16 {
        Some(connect_parts(args)[2])
    } else {
        None
    }
}

/// The token of a connect link.
pub open spec fn token_of(args: Seq<Seq<char>>) -> Option<Seq<char>> {
    if link_kind_of(args) == LinkKind::Connect && connect_parts(args).len() > 3 {
        Some(connect_parts(args)[3])
    } else {
        None
    }
}

/// The address of the custom API that a sync link selects: none for an
/// empty id.
pub open spec fn api_url_for(id: Seq<char>) -> Seq<char> {
    if id.len() == 0 {
        Seq::empty()
    } else {
        "https://api.hoptodesk.com/?n="@ + id
    }
}

/// The value that a sync link sets as the custom API address.
pub open spec fn api_url_of(args: Seq<Seq<char>>) -> Option<Seq<char>> {
    if link_kind_of(args) == LinkKind::Sync {
        Some(api_url_for(sync_id(args)))
    } else {
        None
    }
}

/// The command line `--connect hoptodesk://connect/<id>/<password>/<team
/// id>/<token>`.
pub open spec fn connect_line(
    id: Seq<char>,
    password: Seq<char>,
    team_id: Seq<char>,
    token: Seq<char>,
) -> Seq<Seq<char>> {
    seq![
        "--connect"@,
        "hoptodesk://connect/"@ + id + seq!['/'] + password + seq!['/'] + team_id + seq!['/']
            + token,
    ]
}

/// A connect link with every piece, where the id, the password and the team
/// id hold no slash, is read piece by piece: the command line becomes
/// `--connect <id> <password>`, the token is kept whole (slashes included),
/// and the team id is kept when it is 16 bytes long.
pub proof fn lemma_connect_link_pieces(
    id: Seq<char>,
    password: Seq<char>,
    team_id: Seq<char>,
    token: Seq<char>,
)
    requires
        !id.contains('/'),
        !password.contains('/'),
        !team_id.contains('/'),
    ensures
        link_kind_of(connect_line(id, password, team_id, token)) == LinkKind::Connect,
        rewritten_args(connect_line(id, password, team_id, token)) == seq![
            "--connect"@,
            id,
            password,
        ],
        team_id_of(connect_line(id, password, team_id, token)) == (if byte_len(team_id) == 16 {
            Some(team_id)
        } else {
            None
        }),
        token_of(connect_line(id, password, team_id, token)) == Some(token),
        api_url_of(connect_line(id, password, team_id, token)) is None,
{
    reveal_strlit("hoptodesk://connect/");
    reveal_strlit("hoptodesk:///");
    let args = connect_line(id, password, team_id, token);
    let p = "hoptodesk://connect/"@;
    let rest = id + seq!['/'] + password + seq!['/'] + team_id + seq!['/'] + token;
    assert(args[1] =~= p + rest);
    assert(args[1].take(p.len() as int) =~= p);
    assert(args[1].skip(p.len() as int) =~= rest);
    assert(args[1] != "hoptodesk:///"@) by {
        assert(args[1].len() != "hoptodesk:///"@.len());
    }
    let tail1 = password + seq!['/'] + team_id + seq!['/'] + token;
    let tail2 = team_id + seq!['/'] + token;
    assert(rest =~= id + seq!['/'] + tail1);
    assert(tail1 =~= password + seq!['/'] + tail2);
    lemma_split_n_first(id, tail1, 4, '/');
    lemma_split_n_first(password, tail2, 3, '/');
    lemma_split_n_first(team_id, token, 2, '/');
    assert(connect_parts(args) =~= seq![id, password, team_id, token]);
    assert(rewritten_args(args) =~= seq!["--connect"@, id, password]);
}

/// A connect link whose id and password hold no slash, followed by nothing
/// or by a slash and anything, is read as `--connect <id> <password>`: the
/// password is appended whether or not a team id or token follows.
pub proof fn lemma_connect_link_password(
    id: Seq<char>,
    password: Seq<char>,
    rest: Seq<char>,
)
    requires
        !id.contains('/'),
        !password.contains('/'),
        rest.len() == 0 || rest[0] == '/',
    ensures
        ({
            let args = seq![
                "--connect"@,
                "hoptodesk://connect/"@ + id + seq!['/'] + password + rest,
            ];
            &&& link_kind_of(args) == LinkKind::Connect
            &&& rewritten_args(args) == seq!["--connect"@, id, password]
        }),
{
    reveal_strlit("hoptodesk://connect/");
    reveal_strlit("hoptodesk:///");
    let p = "hoptodesk://connect/"@;
    let tail = password + rest;
    let link = p + id + seq!['/'] + password + rest;
    let args = seq!["--connect"@, link];
    assert(link =~= p + (id + seq!['/'] + tail));
    assert(link.take(p.len() as int) =~= p);
    assert(link.skip(p.len() as int) =~= id + seq!['/'] + tail);
    assert(link != "hoptodesk:///"@) by {
        assert(link.len() != "hoptodesk:///"@.len());
    }
    lemma_split_n_first(id, tail, 4, '/');
    if rest.len() == 0 {
        assert(tail =~= password);
        assert(split_n(tail, 3, '/') == seq![tail]);
    } else {
        let after = rest.skip(1);
        assert(tail =~= password + seq!['/'] + after);
        lemma_split_n_first(password, after, 3, '/');
    }
    assert(connect_parts(args)[0] == id);
    assert(connect_parts(args)[1] == password);
    lemma_split_n_len(tail, 3, '/');
    assert(connect_parts(args).len() > 1);
    assert(rewritten_args(args) =~= seq!["--connect"@, id, password]);
}

/// A connect link with only an id (no slash in it) is read as
/// `--connect <id>`, with no team id or token to store.
pub proof fn lemma_connect_link_id_only(id: Seq<char>)
    requires
        !id.contains('/'),
    ensures
        ({
            let args = seq!["--connect"@, "hoptodesk://connect/"@ + id];
            &&& link_kind_of(args) == LinkKind::Connect
            &&& rewritten_args(args) == seq!["--connect"@, id]
            &&& team_id_of(args) is None
            &&& token_of(args) is None
            &&& api_url_of(args) is None
        }),
{
    reveal_strlit("hoptodesk://connect/");
    reveal_strlit("hoptodesk:///");
    let p = "hoptodesk://connect/"@;
    let link = p + id;
    let args = seq!["--connect"@, link];
    assert(link.take(p.len() as int) =~= p);
    assert(link.skip(p.len() as int) =~= id);
    if link == "hoptodesk:///"@ {
        assert(link[12] == p[12]);
        assert(link[12] != "hoptodesk:///"@[12]);
    }
    assert(split_n(id, 4, '/') == seq![id]);
    assert(rewritten_args(args) =~= seq!["--connect"@, id]);
}

/// A file transfer link is read as `--file-transfer <id>`, with the id as
/// it stands.
pub proof fn lemma_file_transfer_link(id: Seq<char>)
    ensures
        ({
            let args = seq!["--connect"@, "hoptodesk://filetransfer/"@ + id];
            &&& link_kind_of(args) == LinkKind::FileTransfer
            &&& rewritten_args(args) == seq!["--file-transfer"@, id]
            &&& team_id_of(args) is None
            &&& token_of(args) is None
            &&& api_url_of(args) is None
        }),
{
    reveal_strlit("hoptodesk://connect/");
    reveal_strlit("hoptodesk://filetransfer/");
    reveal_strlit("hoptodesk:///");
    let p = "hoptodesk://filetransfer/"@;
    let link = p + id;
    let args = seq!["--connect"@, link];
    assert(link.take(p.len() as int) =~= p);
    assert(link.skip(p.len() as int) =~= id);
    assert(link.len() != "hoptodesk:///"@.len());
    assert(!has_prefix(link, "hoptodesk://connect/"@)) by {
        assert(link.take(20)[12] != "hoptodesk://connect/"@[12]);
    }
    assert(rewritten_args(args) =~= seq!["--file-transfer"@, id]);
}

/// A sync link is read as `--connect <id>` and sets the custom API address
/// to the one for that id (none for an empty id).
pub proof fn lemma_sync_link(id: Seq<char>)
    ensures
        ({
            let args = seq!["--connect"@, "hoptodesk://sync/"@ + id];
            &&& link_kind_of(args) == LinkKind::Sync
            &&& rewritten_args(args) == seq!["--connect"@, id]
            &&& api_url_of(args) == Some(
                if id.len() == 0 {
                    Seq::<char>::empty()
                } else {
                    "https://api.hoptodesk.com/?n="@ + id
                },
            )
            &&& team_id_of(args) is None
            &&& token_of(args) is None
        }),
{
    reveal_strlit("hoptodesk://connect/");
    reveal_strlit("hoptodesk://filetransfer/");
    reveal_strlit("hoptodesk://sync/");
    reveal_strlit("hoptodesk:///");
    let p = "hoptodesk://sync/"@;
    let link = p + id;
    let args = seq!["--connect"@, link];
    assert(link.take(p.len() as int) =~= p);
    assert(link.skip(p.len() as int) =~= id);
    if link == "hoptodesk:///"@ {
        assert(link[12] != "hoptodesk:///"@[12]);
    }
    if has_prefix(link, "hoptodesk://connect/"@) {
        assert(link.take(20)[12] != "hoptodesk://connect/"@[12]);
    }
    if has_prefix(link, "hoptodesk://filetransfer/"@) {
        assert(link.take(25)[12] != "hoptodesk://filetransfer/"@[12]);
    }
    assert(rewritten_args(args) =~= seq!["--connect"@, id]);
}

/// A command line after its deep link was read, and what the link asks to
/// store.
pub struct LinkRewrite {
    pub kind: LinkKind,
    /// The command line to go on with.
    pub args: Vec<String>,
    /// The team id to store (connect links).
    pub team_id: Option<String>,
    /// The token to store (connect links).
    pub token: Option<String>,
    /// The custom API address to set before the client exits (sync links).
    pub api_url: Option<String>,
}

/// The kind of deep link on the command line.
pub fn link_kind(args: &Vec<String>) -> (r: LinkKind)
    ensures
        r == link_kind_of(args.deep_view()),
{
    if args.len() >= 2 && str_eq(args[0].as_str(), "--connect") && !str_eq(
        args[1].as_str(),
        "hoptodesk:///",
    ) {
        let input = args[1].as_str();
        assert(input@ == args.deep_view()[1]);
        if starts_with(input, "hoptodesk://connect/") {
            LinkKind::Connect
        } else if starts_with(input, "hoptodesk://filetransfer/") {
            LinkKind::FileTransfer
        } else if starts_with(input, "hoptodesk://sync/") {
            LinkKind::Sync
        } else {
            LinkKind::NoLink
        }
    } else {
        LinkKind::NoLink
    }
}

/// The custom API address for a sync id.
pub fn api_url(id: &str) -> (r: String)
    ensures
        r@ == api_url_for(id@),
{
    if id.is_empty() {
        String::new()
    } else {
        let mut url = "https://api.hoptodesk.com/?n=".to_owned();
        url.append(id);
        url
    }
}

/// Reads the deep link after `--connect`, if any, and rewrites the command
/// line as the link asks. The command line is returned unchanged when it
/// holds no such link.
pub fn rewrite_deep_link(args: Vec<String>) -> (r: LinkRewrite)
    requires
        args@.len() > 0 && args@[0]@ == "--connect"@ ==> args@.len() >= 2,
    ensures
        r.kind == link_kind_of(args.deep_view()),
        r.args.deep_view() == rewritten_args(args.deep_view()),
        opt_view(r.team_id) == team_id_of(args.deep_view()),
        opt_view(r.token) == token_of(args.deep_view()),
        opt_view(r.api_url) == api_url_of(args.deep_view()),
{
    let ghost dv = args.deep_view();
    let mut args = args;
    let kind = link_kind(&args);
    match kind {
        LinkKind::NoLink => LinkRewrite { kind, args, team_id: None, token: None, api_url: None },
        LinkKind::Connect => {
            let rest = match strip_prefix(args[1].as_str(), "hoptodesk://connect/") {
                Some(rest) => rest,
                None => {
                    assert(false);
                    String::new()
                },
            };
            let parts = splitn(rest.as_str(), 4, '/');
            proof {
                lemma_split_n_len(rest@, 4, '/');
                assert(parts.deep_view() == connect_parts(dv));
            }
            args.set(1, parts[0].clone());
            assert(args.deep_view() =~= dv.update(1, connect_parts(dv)[0]));
            if parts.len() > 1 {
                let ghost before = args.deep_view();
                args.push(parts[1].clone());
                assert(args.deep_view() =~= before.push(connect_parts(dv)[1]));
            }
            let team_id = if parts.len() > 2 && parts[2].as_str().len() == 16 {
                Some(parts[2].clone())
            } else {
                None
            };
            let token = if parts.len() > 3 {
                Some(parts[3].clone())
            } else {
                None
            };
            LinkRewrite { kind, args, team_id, token, api_url: None }
        },
        LinkKind::FileTransfer => {
            let id = match strip_prefix(args[1].as_str(), "hoptodesk://filetransfer/") {
                Some(id) => id,
                None => {
                    assert(false);
                    String::new()
                },
            };
            args.set(1, id);
            args.set(0, "--file-transfer".to_owned());
            assert(args.deep_view() =~= rewritten_args(dv));
            LinkRewrite { kind, args, team_id: None, token: None, api_url: None }
        },
        LinkKind::Sync => {
            let id = match strip_prefix(args[1].as_str(), "hoptodesk://sync/") {
                Some(id) => id,
                None => {
                    assert(false);
                    String::new()
                },
            };
            let url = api_url(id.as_str());
            args.set(1, id);
            assert(args.deep_view() =~= rewritten_args(dv));
            LinkRewrite { kind, args, team_id: None, token: None, api_url: Some(url) }
        },
    }
}

} // verus!

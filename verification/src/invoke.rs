//! Asking a running client for a new connection window: the link that
//! encodes the request, and what the start does once it was sent.

use vstd::prelude::*;
use vstd::string::StringExecFns;
use crate::text::{ends_with, has_suffix, replace, replaced, str_eq};

verus! {

/// The Unicode lowercase mapping that `str::to_lowercase` applies.
pub uninterp spec fn lowercase_of(s: Seq<char>) -> Seq<char>;

/// `str::to_lowercase`: the result is the lowercase mapping of `s`, a
/// function of `s` alone; its Unicode tables are not restated here.
#[verifier::external_body]
fn to_lowercase(s: &str) -> (r: String)
    ensures
        r@ == lowercase_of(s@),
{
    s.to_lowercase()
}

/// Why no new connection can be requested.
#[derive(Clone, Copy, Debug, PartialEq, Eq, Structural)]
pub enum InvokeError {
    /// Neither `--connect` nor `--play` is on the command line.
    NoConnectionRequest,
    /// Nothing, or an empty argument, follows the request.
    EmptyPeerId,
}

/// `--connect` or `--play`.
pub open spec fn is_connect_or_play(a: Seq<char>) -> bool {
    a == "--connect"@ || a == "--play"@
}

/// The first position at or after `i` that holds `--connect` or `--play`.
pub open spec fn first_request_from(args: Seq<Seq<char>>, i: int) -> Option<int>
    decreases args.len() - i,
{
    if i < 0 || i >= args.len() {
        None
    } else if is_connect_or_play(args[i]) {
        Some(i)
    } else {
        first_request_from(args, i + 1)
    }
}

/// The switch uuid given by the arguments `rest`, scanning from the left
/// with `found` so far: each `--switch_uuid` takes the next argument, and a
/// `--switch_uuid` with nothing after it leaves none.
pub open spec fn switch_uuid_in(rest: Seq<Seq<char>>, found: Option<Seq<char>>) -> Option<Seq<char>>
    decreases rest.len(),
{
    if rest.len() == 0 {
        found
    } else if rest[0] == "--switch_uuid"@ {
        if rest.len() >= 2 {
            switch_uuid_in(rest.skip(2), Some(rest[1]))
        } else {
            None
        }
    } else {
        switch_uuid_in(rest.skip(1), found)
    }
}

/// The peer id without the application's extension: when it ends with
/// `ext`, every occurrence of `ext` is removed.
pub open spec fn without_ext(peer: Seq<char>, ext: Seq<char>) -> Seq<char> {
    if has_suffix(peer, ext) {
        replaced(peer, ext, Seq::empty())
    } else {
        peer
    }
}

/// The query of the link: `switch_uuid=<uuid>`, or nothing.
pub open spec fn params_of(uuid: Option<Seq<char>>) -> Seq<char> {
    match uuid {
        Some(u) => "switch_uuid="@ + u,
        None => Seq::empty(),
    }
}

/// The link that asks for a new connection to `peer`.
pub open spec fn link_for(peer: Seq<char>, params: Seq<char>) -> Seq<char> {
    "hoptodesk://connection/new/"@ + peer + (if params.len() == 0 {
        Seq::empty()
    } else {
        "?"@
    }) + params
}

/// The new-connection link for a command line (`args[0]` is the
/// executable), with `ext` the application's extension: the peer id follows
/// the first `--connect` or `--play`.
pub open spec fn new_connection_link_of(args: Seq<Seq<char>>, ext: Seq<char>) -> Result<
    Seq<char>,
    InvokeError,
> {
    match first_request_from(args, 0) {
        None => Err(InvokeError::NoConnectionRequest),
        Some(p) => {
            if p + 1 >= args.len() || args[p + 1].len() == 0 {
                Err(InvokeError::EmptyPeerId)
            } else {
                Ok(
                    link_for(
                        without_ext(args[p + 1], ext),
                        params_of(switch_uuid_in(args.skip(p + 2), None)),
                    ),
                )
            }
        },
    }
}

/// The string result agrees with the specified one.
pub open spec fn agrees(r: Result<String, InvokeError>, s: Result<Seq<char>, InvokeError>) -> bool {
    match s {
        Ok(l) => r matches Ok(x) && x@ == l,
        Err(e) => r == Err::<String, InvokeError>(e),
    }
}

/// The new-connection link for a command line, with `ext` the application's
/// extension (a dot and the lowercase application name).
pub fn new_connection_link(args: &Vec<String>, ext: &str) -> (r: Result<String, InvokeError>)
    requires
        ext@.len() > 0,
    ensures
        agrees(r, new_connection_link_of(args.deep_view(), ext@)),
{
    let ghost dv = args.deep_view();
    let mut p: usize = 0;
    while p < args.len() && !(str_eq(args[p].as_str(), "--connect") || str_eq(
        args[p].as_str(),
        "--play",
    ))
        invariant
            dv == args.deep_view(),
            dv.len() == args@.len(),
            p <= args@.len(),
            first_request_from(dv, 0) == first_request_from(dv, p as int),
        decreases args@.len() - p,
    {
        assert(args[p as int]@ == dv[p as int]);
        p = p + 1;
    }
    if p == args.len() {
        return Err(InvokeError::NoConnectionRequest);
    }
    assert(args[p as int]@ == dv[p as int]);
    if p + 1 >= args.len() || args[p + 1].as_str().is_empty() {
        return Err(InvokeError::EmptyPeerId);
    }
    let peer_arg = args[p + 1].as_str();
    assert(peer_arg@ == dv[p + 1]);
    proof {
        reveal_strlit("");
        assert(""@ =~= Seq::<char>::empty());
    }
    let peer = if ends_with(peer_arg, ext) {
        replace(peer_arg, ext, "")
    } else {
        peer_arg.to_owned()
    };
    // The switch uuid from the arguments after the peer id.
    let mut found: Option<String> = None;
    let mut i: usize = p + 2;
    assert(dv.skip(p + 2).skip(0) =~= dv.skip(p + 2));
    while i < args.len()
        invariant
            dv == args.deep_view(),
            dv.len() == args@.len(),
            p + 2 <= i <= args@.len(),
            switch_uuid_in(dv.skip(i as int), crate::text::opt_view(found)) == switch_uuid_in(
                dv.skip(p + 2),
                None,
            ),
        decreases args@.len() - i,
    {
        let ghost rest = dv.skip(i as int);
        assert(rest[0] == args[i as int]@);
        if str_eq(args[i].as_str(), "--switch_uuid") {
            if i + 1 < args.len() {
                assert(rest[1] == args[i + 1]@);
                assert(rest.skip(2) =~= dv.skip(i + 2));
                found = Some(args[i + 1].clone());
                i = i + 2;
            } else {
                assert(rest.len() == 1);
                assert(dv.skip(i + 1) =~= Seq::<Seq<char>>::empty());
                found = None;
                i = i + 1;
            }
        } else {
            assert(rest.skip(1) =~= dv.skip(i + 1));
            i = i + 1;
        }
    }
    assert(dv.skip(i as int) =~= Seq::<Seq<char>>::empty());
    let ghost uuid = switch_uuid_in(dv.skip(p + 2), None);
    assert(crate::text::opt_view(found) == uuid);
    proof {
        reveal_strlit("switch_uuid=");
        reveal_strlit("?");
    }
    let mut link = "hoptodesk://connection/new/".to_owned();
    link.append(peer.as_str());
    match found {
        Some(u) => {
            link.append("?");
            link.append("switch_uuid=");
            link.append(u.as_str());
            assert(link@ =~= link_for(without_ext(dv[p + 1], ext@), params_of(uuid)));
        },
        None => {
            assert(link@ =~= link_for(without_ext(dv[p + 1], ext@), params_of(uuid)));
        },
    }
    Ok(link)
}

/// The link that asks a running client for a new connection window, for a
/// command line (`args[0]` is the executable) and the application's name.
pub fn core_main_invoke_new_connection(args: &Vec<String>, app_name: &str) -> (r: Result<
    String,
    InvokeError,
>)
    ensures
        agrees(r, new_connection_link_of(args.deep_view(), "."@ + lowercase_of(app_name@))),
{
    proof {
        reveal_strlit(".");
    }
    let lower = to_lowercase(app_name);
    let mut ext = ".".to_owned();
    ext.append(lower.as_str());
    new_connection_link(args, ext.as_str())
}

/// What the start returns once the link was handed to a running client:
/// nothing when it was delivered (the process ends), else an empty command
/// line, so that this process opens the link itself.
pub fn after_link_sent(delivered: bool) -> (r: Option<Vec<String>>)
    ensures
        r is None <==> delivered,
        r matches Some(v) ==> v@.len() == 0,
{
    if delivered {
        None
    } else {
        Some(Vec::new())
    }
}

/// What the start returns after handing `uni_links` over the session bus,
/// given the outcome of that call.
pub fn try_send_by_dbus(sent: Result<(), String>) -> (r: Option<Vec<String>>)
    ensures
        r is None <==> sent is Ok,
        r matches Some(v) ==> v@.len() == 0,
{
    after_link_sent(sent.is_ok())
}

} // verus!

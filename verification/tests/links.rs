use hoptodesk_launch::links::{api_url, is_empty_uni_link, link_kind, rewrite_deep_link, LinkKind};

fn strings(v: &[&str]) -> Vec<String> {
    v.iter().map(|s| s.to_string()).collect()
}

#[test]
fn empty_links() {
    assert!(is_empty_uni_link("hoptodesk://"));
    assert!(is_empty_uni_link("hoptodesk:///"));
    assert!(is_empty_uni_link("hoptodesk:////"));
    assert!(!is_empty_uni_link("hoptodesk://x"));
    assert!(!is_empty_uni_link("hoptodesk:/"));
    assert!(!is_empty_uni_link("--server"));
    assert!(!is_empty_uni_link(""));
}

#[test]
fn connect_link_with_every_piece() {
    let r = rewrite_deep_link(strings(&["--connect", "hoptodesk://connect/123456/secret/ABCDEFGHIJKLMNOP/tok/en"]));
    assert_eq!(r.kind, LinkKind::Connect);
    assert_eq!(r.args, strings(&["--connect", "123456", "secret"]));
    assert_eq!(r.team_id, Some("ABCDEFGHIJKLMNOP".to_string()));
    assert_eq!(r.token, Some("tok/en".to_string()));
    assert_eq!(r.api_url, None);
}

#[test]
fn connect_link_with_an_id_only() {
    let r = rewrite_deep_link(strings(&["--connect", "hoptodesk://connect/987", "extra"]));
    assert_eq!(r.kind, LinkKind::Connect);
    assert_eq!(r.args, strings(&["--connect", "987", "extra"]));
    assert_eq!(r.team_id, None);
    assert_eq!(r.token, None);
}

#[test]
fn team_id_must_be_sixteen_bytes() {
    let r = rewrite_deep_link(strings(&["--connect", "hoptodesk://connect/1/pw/short"]));
    assert_eq!(r.team_id, None);
    assert_eq!(r.token, None);
    // Fifteen characters, sixteen bytes.
    let r = rewrite_deep_link(strings(&["--connect", "hoptodesk://connect/1/pw/ABCDEFGHIJKLMNé/t"]));
    assert_eq!(r.team_id, Some("ABCDEFGHIJKLMNé".to_string()));
    // Sixteen characters, seventeen bytes.
    let r = rewrite_deep_link(strings(&["--connect", "hoptodesk://connect/1/pw/ABCDEFGHIJKLMNOé"]));
    assert_eq!(r.team_id, None);
}

#[test]
fn file_transfer_link() {
    let r = rewrite_deep_link(strings(&["--connect", "hoptodesk://filetransfer/555"]));
    assert_eq!(r.kind, LinkKind::FileTransfer);
    assert_eq!(r.args, strings(&["--file-transfer", "555"]));
    assert_eq!(r.team_id, None);
}

#[test]
fn sync_link() {
    let r = rewrite_deep_link(strings(&["--connect", "hoptodesk://sync/abc"]));
    assert_eq!(r.kind, LinkKind::Sync);
    assert_eq!(r.args, strings(&["--connect", "abc"]));
    assert_eq!(r.api_url, Some("https://api.hoptodesk.com/?n=abc".to_string()));
    let r = rewrite_deep_link(strings(&["--connect", "hoptodesk://sync/"]));
    assert_eq!(r.api_url, Some(String::new()));
    assert_eq!(api_url("x"), "https://api.hoptodesk.com/?n=x");
    assert_eq!(api_url(""), "");
}

#[test]
fn lines_without_a_link_stay() {
    for args in [
        strings(&["--connect", "hoptodesk:///"]),
        strings(&["--connect", "123"]),
        strings(&["--connect", "hoptodesk://other/1"]),
        strings(&["--server"]),
        strings(&[]),
    ] {
        let r = rewrite_deep_link(args.clone());
        assert_eq!(r.kind, LinkKind::NoLink);
        assert_eq!(r.args, args);
        assert_eq!((r.team_id, r.token, r.api_url), (None, None, None));
    }
    assert_eq!(link_kind(&strings(&["--play", "hoptodesk://connect/1"])), LinkKind::NoLink);
}

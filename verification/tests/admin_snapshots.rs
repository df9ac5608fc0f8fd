use memstore::actions::Response;
use memstore::admin::{
    is_illegal_snapshot_name, mkrsnap_code_response, mksnap_code_response, mksnap_decide,
    SnapshotDecision,
};
use memstore::data::Data;

fn d(s: &str) -> Data {
    Data::from_vec(s.as_bytes().to_vec())
}

fn expect_refusal(decision: SnapshotDecision, expected: Response) {
    match decision {
        SnapshotDecision::Refuse(r) => assert_eq!(r, expected),
        _ => panic!("expected a refusal"),
    }
}

#[test]
fn mksnap_without_args_uses_default_destination() {
    let act: Vec<Data> = Vec::new();
    assert!(matches!(mksnap_decide(&act), SnapshotDecision::DefaultSnapshot));
}

#[test]
fn mksnap_accepts_plain_name() {
    let act = vec![d("backup1")];
    match mksnap_decide(&act) {
        SnapshotDecision::RemoteSnapshot(name) => assert!(name.content_eq(&d("backup1"))),
        _ => panic!("expected a remote snapshot"),
    }
}

#[test]
fn mksnap_accepts_dots_inside_component() {
    let act = vec![d("a..b/c")];
    assert!(matches!(mksnap_decide(&act), SnapshotDecision::RemoteSnapshot(_)));
}

#[test]
fn mksnap_rejects_parent_components() {
    expect_refusal(mksnap_decide(&vec![d("..")]), Response::SnapshotIllegalName);
    expect_refusal(mksnap_decide(&vec![d("../etc")]), Response::SnapshotIllegalName);
    expect_refusal(mksnap_decide(&vec![d("a/../b")]), Response::SnapshotIllegalName);
    expect_refusal(mksnap_decide(&vec![d("a/..")]), Response::SnapshotIllegalName);
}

#[test]
fn mksnap_rejects_root_component() {
    expect_refusal(mksnap_decide(&vec![d("/abs")]), Response::SnapshotIllegalName);
}

#[test]
fn mksnap_rejects_invalid_utf8() {
    let act = vec![Data::from_vec(vec![0xff, 0x80])];
    expect_refusal(mksnap_decide(&act), Response::EncodingError);
}

#[test]
fn mksnap_rejects_extra_args() {
    let act = vec![d("a"), d("b")];
    expect_refusal(mksnap_decide(&act), Response::ActionError);
}

#[test]
fn illegal_name_scanner_agrees_with_components() {
    assert!(is_illegal_snapshot_name(b"/"));
    assert!(is_illegal_snapshot_name(b"../x"));
    assert!(is_illegal_snapshot_name(b"x/../y"));
    assert!(!is_illegal_snapshot_name(b""));
    assert!(!is_illegal_snapshot_name(b"snap.2021"));
    assert!(!is_illegal_snapshot_name(b"a/b/c"));
    assert!(!is_illegal_snapshot_name(b"..."));
}

#[test]
fn snapshot_codes_translate_to_responses() {
    assert_eq!(mksnap_code_response(0), Response::Okay);
    assert_eq!(mksnap_code_response(1), Response::ServerError);
    assert_eq!(mksnap_code_response(2), Response::SnapshotDisabled);
    assert_eq!(mksnap_code_response(3), Response::SnapshotBusy);
    assert_eq!(mkrsnap_code_response(0), Response::Okay);
    assert_eq!(mkrsnap_code_response(1), Response::ServerError);
    assert_eq!(mkrsnap_code_response(3), Response::SnapshotBusy);
}

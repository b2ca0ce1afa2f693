use socks_puppet::handshake::{negotiate, offers_no_auth, version_supported};

#[test]
fn no_auth_selected() {
    let n = negotiate(&vec![0u8]);
    assert!(n.accepted);
    assert_eq!(n.reply, vec![5u8, 0]);
}

#[test]
fn no_auth_among_many() {
    let n = negotiate(&vec![2u8, 1, 0]);
    assert!(n.accepted);
    assert_eq!(n.reply, vec![5u8, 0]);
}

#[test]
fn no_acceptable_methods() {
    let n = negotiate(&vec![2u8, 3]);
    assert!(!n.accepted);
    assert_eq!(n.reply, vec![5u8, 0xFF]);
}

#[test]
fn empty_method_list_refused() {
    let n = negotiate(&vec![]);
    assert!(!n.accepted);
    assert_eq!(n.reply, vec![5u8, 0xFF]);
}

#[test]
fn version_check() {
    assert!(version_supported(5));
    assert!(!version_supported(4));
    assert!(!version_supported(0));
    assert!(!version_supported(255));
}

#[test]
fn method_scan() {
    assert!(offers_no_auth(&vec![0u8]));
    assert!(offers_no_auth(&vec![1u8, 0, 2]));
    assert!(!offers_no_auth(&vec![1u8, 2, 255]));
    assert!(!offers_no_auth(&vec![]));
}

use etcd::client::cluster_info_of;
use etcd::strutil::{parse_u64, str_eq, u64_to_dec};
use etcd::wire::ResponseHeaders;

#[test]
fn decimal_rendering() {
    assert_eq!(u64_to_dec(0), "0");
    assert_eq!(u64_to_dec(7), "7");
    assert_eq!(u64_to_dec(105), "105");
    assert_eq!(u64_to_dec(18446744073709551615), "18446744073709551615");
}

#[test]
fn decimal_parsing() {
    assert_eq!(parse_u64("0"), Some(0));
    assert_eq!(parse_u64("42"), Some(42));
    assert_eq!(parse_u64("18446744073709551615"), Some(18446744073709551615));
    assert_eq!(parse_u64("18446744073709551616"), None);
    assert_eq!(parse_u64(""), None);
    assert_eq!(parse_u64("4x2"), None);
    assert_eq!(parse_u64("-1"), None);
    assert_eq!(parse_u64(" 42"), None);
}

#[test]
fn string_comparison() {
    assert!(str_eq("get", "get"));
    assert!(!str_eq("get", "got"));
    assert!(!str_eq("get", "gets"));
    assert!(str_eq("", ""));
    assert!(!str_eq("\u{e9}", "e"));
}

#[test]
fn header_indices_must_be_decimal() {
    let info = cluster_info_of(&ResponseHeaders {
        cluster_id: Some("deadbeef".to_string()),
        etcd_index: Some("101".to_string()),
        raft_index: Some("1.5".to_string()),
        raft_term: Some("18446744073709551616".to_string()),
    });

    assert_eq!(info.cluster_id.as_deref(), Some("deadbeef"));
    assert_eq!(info.etcd_index, Some(101));
    assert_eq!(info.raft_index, None);
    assert_eq!(info.raft_term, None);
}

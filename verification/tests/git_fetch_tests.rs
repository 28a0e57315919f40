use berth::error::AppError;
use berth::git_fetch::{
    check_resolved_addresses, is_public_ip, is_public_ipv4, is_public_ipv6, progress_due,
    progress_line, publish_dir_verdict, resolve_publish_dir, IpAddress,
};

fn v4(s: &str) -> [u8; 4] {
    let parts: Vec<u8> = s.split('.').map(|p| p.parse().unwrap()).collect();
    [parts[0], parts[1], parts[2], parts[3]]
}

/// Segments of an IPv6 address written with at most one `::` and an
/// optional dotted IPv4 tail.
fn v6(s: &str) -> [u16; 8] {
    fn groups(part: &str) -> Vec<u16> {
        if part.is_empty() {
            return Vec::new();
        }
        let mut out = Vec::new();
        for g in part.split(':') {
            if g.contains('.') {
                let o = v4(g);
                out.push(u16::from(o[0]) << 8 | u16::from(o[1]));
                out.push(u16::from(o[2]) << 8 | u16::from(o[3]));
            } else {
                out.push(u16::from_str_radix(g, 16).unwrap());
            }
        }
        out
    }
    let (head, tail) = match s.split_once("::") {
        Some((h, t)) => (groups(h), groups(t)),
        None => (groups(s), Vec::new()),
    };
    let mut seg = [0u16; 8];
    for (i, g) in head.iter().enumerate() {
        seg[i] = *g;
    }
    for (i, g) in tail.iter().enumerate() {
        seg[8 - tail.len() + i] = *g;
    }
    seg
}

#[test]
fn ipv4_private_and_reserved_ranges_are_rejected() {
    assert!(!is_public_ipv4(v4("10.0.0.1")));
    assert!(!is_public_ipv4(v4("172.16.0.1")));
    assert!(!is_public_ipv4(v4("192.168.1.1")));
    assert!(!is_public_ipv4(v4("127.0.0.1")));
    assert!(!is_public_ipv4(v4("169.254.169.254")));
    assert!(!is_public_ipv4(v4("100.64.0.1")));
    assert!(!is_public_ipv4(v4("0.0.0.0")));
}

#[test]
fn ipv4_public_address_is_accepted() {
    assert!(is_public_ipv4(v4("8.8.8.8")));
}

#[test]
fn ipv6_private_and_reserved_ranges_are_rejected() {
    assert!(!is_public_ipv6(v6("::1")));
    assert!(!is_public_ipv6(v6("fc00::1")));
    assert!(!is_public_ipv6(v6("fe80::1")));
    assert!(!is_public_ipv6(v6("::ffff:10.0.0.1")));
}

#[test]
fn ipv6_public_address_is_accepted() {
    assert!(is_public_ipv6(v6("2001:4860:4860::8888")));
}

#[test]
fn more_reserved_ipv4_ranges_are_rejected() {
    for addr in [
        "172.31.255.255",
        "192.0.2.1",
        "198.51.100.7",
        "203.0.113.9",
        "224.0.0.1",
        "239.255.255.255",
        "255.255.255.255",
        "198.18.0.1",
        "198.19.255.255",
        "240.0.0.1",
        "0.1.2.3",
    ] {
        assert!(!is_public_ipv4(v4(addr)), "{addr} must not be public");
    }
    for addr in ["172.32.0.1", "100.128.0.1", "198.20.0.1", "1.1.1.1"] {
        assert!(is_public_ipv4(v4(addr)), "{addr} must be public");
    }
}

#[test]
fn mapped_ipv6_is_judged_as_its_ipv4() {
    assert!(is_public_ipv6(v6("::ffff:8.8.8.8")));
    assert!(!is_public_ipv6(v6("ff02::1")));
    assert!(!is_public_ipv6(v6("::")));
    assert!(is_public_ip(IpAddress::V4(v4("9.9.9.9"))));
    assert!(!is_public_ip(IpAddress::V6(v6("::1"))));
}

#[test]
fn ensure_host_is_public_rejects_ip_literal_targets() {
    for target in ["127.0.0.1", "169.254.169.254", "10.1.2.3"] {
        let err = check_resolved_addresses(target, &[IpAddress::V4(v4(target))])
            .expect_err("non-public target must be rejected");
        assert!(matches!(err, AppError::Git(_)));
    }
}

#[test]
fn ensure_host_is_public_accepts_public_ip_literal() {
    assert!(check_resolved_addresses("8.8.8.8", &[IpAddress::V4(v4("8.8.8.8"))]).is_ok());
}

#[test]
fn a_host_resolving_to_nothing_or_anything_private_is_rejected() {
    assert_eq!(
        check_resolved_addresses("empty.example", &[]),
        Err(AppError::Git(
            "repo host empty.example did not resolve to any address".to_string()
        ))
    );
    assert_eq!(
        check_resolved_addresses(
            "mixed.example",
            &[IpAddress::V4(v4("8.8.8.8")), IpAddress::V4(v4("10.0.0.1"))]
        ),
        Err(AppError::Git(
            "repo host mixed.example resolves to a non-public address".to_string()
        ))
    );
}

#[test]
fn none_resolves_to_checkout_root() {
    assert_eq!(
        resolve_publish_dir("/tmp/checkout", None),
        Ok("/tmp/checkout".to_string())
    );
}

#[test]
fn valid_nested_subdir_resolves() {
    // A directory every Linux system has stands in for a checkout's subdir.
    assert_eq!(
        resolve_publish_dir("/", Some("usr/bin")),
        Ok("/usr/bin".to_string())
    );
    assert_eq!(
        publish_dir_verdict("dist/site", "/tmp/checkout/dist/site".to_string(), true),
        Ok("/tmp/checkout/dist/site".to_string())
    );
}

#[test]
fn parent_dir_escape_is_rejected() {
    let err = resolve_publish_dir("/tmp/checkout", Some("../escape")).unwrap_err();
    assert!(matches!(err, AppError::InvalidPublishDir(_)));
}

#[test]
fn absolute_path_is_rejected() {
    let err = resolve_publish_dir("/tmp/checkout", Some("/etc/passwd")).unwrap_err();
    assert_eq!(err, AppError::InvalidPublishDir("/etc/passwd".to_string()));
}

#[test]
fn missing_subdir_is_rejected() {
    let err = resolve_publish_dir("/tmp", Some("does-not-exist")).unwrap_err();
    assert!(matches!(err, AppError::InvalidPublishDir(_)));
    assert_eq!(
        publish_dir_verdict("does-not-exist", "/tmp/checkout/does-not-exist".to_string(), false),
        Err(AppError::InvalidPublishDir("does-not-exist".to_string()))
    );
}

#[test]
fn progress_lines_name_the_counter() {
    assert_eq!(progress_line("", 5, Some(10)), None);
    assert_eq!(
        progress_line("objects", 5, Some(10)),
        Some("objects: 5/10 (50%)".to_string())
    );
    assert_eq!(
        progress_line("objects", 7, None),
        Some("objects: 7".to_string())
    );
    assert_eq!(
        progress_line("objects", 7, Some(0)),
        Some("objects: 7".to_string())
    );
    assert_eq!(
        progress_line("big", u64::MAX, Some(u64::MAX)),
        Some(format!("big: {}/{} (1%)", u64::MAX, u64::MAX))
    );
    assert!(!progress_due(499));
    assert!(progress_due(500));
}

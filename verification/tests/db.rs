use std::collections::hash_map::DefaultHasher;
use std::hash::{Hash, Hasher};

use watchtower::db::{compute_fingerprint, setting_value};
use watchtower::text::{push_decimal, push_hex_digits, push_signed_decimal, str_eq};

fn std_fingerprint(tool: &str, title: &str, file_path: Option<&str>, cwe_id: Option<&str>) -> String {
    let mut hasher = DefaultHasher::new();
    tool.hash(&mut hasher);
    title.hash(&mut hasher);
    file_path.unwrap_or("").hash(&mut hasher);
    cwe_id.unwrap_or("").hash(&mut hasher);
    format!("{:016x}", hasher.finish())
}

#[test]
fn fingerprint_matches_hashing_the_fields_with_std() {
    let cases: Vec<(&str, &str, Option<&str>, Option<&str>)> = vec![
        ("zap", "Cross Site Scripting (Reflected)", Some("https://example.com/?q=1"), Some("CWE-79")),
        ("bandit", "Use of assert detected", Some("app/main.py"), None),
        ("nmap", "Open port 22", None, None),
        ("", "", None, None),
        ("trivy", "CVE-2024-0001 in openssl", Some("Dockerfile"), Some("CWE-787")),
        ("zap", "héllo wörld ✓", Some("/ü"), Some("")),
    ];
    for (tool, title, path, cwe) in cases {
        assert_eq!(compute_fingerprint(tool, title, path, cwe), std_fingerprint(tool, title, path, cwe));
    }
}

#[test]
fn fingerprint_is_sixteen_lowercase_hex_digits() {
    let f = compute_fingerprint("zap", "X-Frame-Options Header Not Set", Some("https://a.test/"), Some("CWE-1021"));
    assert_eq!(f.len(), 16);
    assert!(f.chars().all(|c| c.is_ascii_digit() || ('a'..='f').contains(&c)));
}

#[test]
fn fingerprint_missing_fields_count_as_empty() {
    assert_eq!(
        compute_fingerprint("zap", "t", None, None),
        compute_fingerprint("zap", "t", Some(""), Some(""))
    );
    assert_eq!(
        compute_fingerprint("sqlmap", "t", Some("/login"), None),
        compute_fingerprint("sqlmap", "t", Some("/login"), Some(""))
    );
}

#[test]
fn fingerprint_is_stable_and_tells_fields_apart() {
    let a = compute_fingerprint("zap", "Title", Some("/a"), Some("CWE-79"));
    assert_eq!(a, compute_fingerprint("zap", "Title", Some("/a"), Some("CWE-79")));
    assert_ne!(a, compute_fingerprint("zap", "Title", Some("/b"), Some("CWE-79")));
    assert_ne!(a, compute_fingerprint("nikto", "Title", Some("/a"), Some("CWE-79")));
    // The field boundaries matter: moving text between fields changes the result.
    assert_ne!(
        compute_fingerprint("ab", "c", None, None),
        compute_fingerprint("a", "bc", None, None)
    );
}

#[test]
fn setting_value_defaults_to_empty() {
    assert_eq!(setting_value(Some(Some("secret".to_string()))), "secret");
    assert_eq!(setting_value(Some(Some(String::new()))), "");
    assert_eq!(setting_value(Some(None)), "");
    assert_eq!(setting_value(None), "");
}

#[test]
fn decimal_rendering_matches_display() {
    for n in [0i64, 7, -7, 10, 99, 100, 1234567, -1000, i64::MAX, i64::MIN] {
        let mut s = String::new();
        push_signed_decimal(&mut s, n);
        assert_eq!(s, n.to_string());
    }
    for n in [0u64, 9, 10, 18446744073709551615] {
        let mut s = String::from("x");
        push_decimal(&mut s, n);
        assert_eq!(s, format!("x{}", n));
    }
}

#[test]
fn hex_rendering_matches_format() {
    for n in [0u64, 1, 0xabcdef, 0xdeadbeefcafebabe, u64::MAX] {
        let mut s = String::new();
        push_hex_digits(&mut s, n, 16);
        assert_eq!(s, format!("{:016x}", n));
    }
    let mut s = String::new();
    push_hex_digits(&mut s, 0x1ff, 2);
    assert_eq!(s, "ff");
}

#[test]
fn str_eq_compares_contents() {
    assert!(str_eq("100", "100"));
    assert!(!str_eq("100", "10"));
    assert!(str_eq("", ""));
}

use cargo_deploy::sanitize_hostname;

#[test]
fn sanitize_empty() {
    assert_eq!(sanitize_hostname(""), "");
}

#[test]
fn sanitize_collapses_underscores() {
    assert_eq!(sanitize_hostname("a__b___c"), "a_b_c");
}

#[test]
fn sanitize_strips_edges() {
    assert_eq!(sanitize_hostname("_leading_trailing_"), "leading_trailing");
}

#[test]
fn sanitize_ip() {
    assert_eq!(sanitize_hostname("10.0.0.5"), "10_0_0_5");
}

#[test]
fn sanitize_keeps_safe_characters() {
    assert_eq!(sanitize_hostname("host-name_1"), "host-name_1");
    assert_eq!(sanitize_hostname("Pi4B"), "Pi4B");
}

#[test]
fn sanitize_all_unsafe_collapses_to_empty() {
    assert_eq!(sanitize_hostname("!!!"), "");
    assert_eq!(sanitize_hostname("..."), "");
}

#[test]
fn sanitize_mixed() {
    assert_eq!(sanitize_hostname("pi.local"), "pi_local");
    assert_eq!(sanitize_hostname("fe80::1%eth0"), "fe80_1_eth0");
    assert_eq!(sanitize_hostname("..a..b.."), "a_b");
}

#[test]
fn sanitize_is_idempotent_on_samples() {
    let samples = [
        "",
        "10.0.0.5",
        "_x_",
        "a__b___c",
        "pi.local",
        "fe80::1%eth0",
        "???",
        "already-clean",
        "Ünïcødé héré",
    ];
    for s in samples {
        let once = sanitize_hostname(s);
        let twice = sanitize_hostname(&once);
        assert_eq!(once, twice);
    }
}

#[test]
fn sanitize_output_shape() {
    let samples = ["", "a b c", "__x__y__", ".:!@#", "raspberry.pi.home", "a-_b", "_"];
    for s in samples {
        let out = sanitize_hostname(s);
        for c in out.chars() {
            assert!(c.is_ascii_alphanumeric() || c == '-' || c == '_');
        }
        assert!(!out.contains("__"));
        assert!(!out.starts_with('_'));
        assert!(!out.ends_with('_'));
    }
}

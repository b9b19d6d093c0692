use tetron_webui::server::{resolve_port, DEFAULT_PORT};
use tetron_webui::text::{str_concat, decimal_string, parse_u16, replace_all, str_eq, take_chars, trim_string};

#[test]
fn parse_u16_reads_like_std() {
    for s in ["0", "7870", "65535", "65536", "+80", "+", "-1", "", " 80", "80 ", "0008", "12a", "999999999999"] {
        assert_eq!(parse_u16(s), s.parse::<u16>().ok(), "input {s:?}");
    }
}

#[test]
fn decimal_string_matches_to_string() {
    for n in [0u64, 7, 10, 99, 100, 28088, u64::MAX] {
        assert_eq!(decimal_string(n), n.to_string());
    }
}

#[test]
fn take_chars_counts_characters_not_bytes() {
    assert_eq!(take_chars("abcdefghijklmnop", 10), "abcdefghij");
    assert_eq!(take_chars("short", 10), "short");
    assert_eq!(take_chars("ééééééééééé", 10), "éééééééééé");
}

#[test]
fn str_eq_and_concat() {
    assert!(str_eq("backup", "backup"));
    assert!(!str_eq("backup", "backups"));
    assert_eq!(str_concat("unknown addon: ", "x"), "unknown addon: x");
}

#[test]
fn replace_all_matches_std_replace() {
    let cases = [
        ("ExecStart=/usr/local/bin/tetron-webui\n", "/usr/local/bin/tetron-webui", "/opt/bin/w"),
        ("aaaa", "aa", "b"),
        ("abc", "", "x"),
        ("", "", "x"),
        ("no match here", "zz", "y"),
    ];
    for (s, from, to) in cases {
        assert_eq!(replace_all(s, from, to), s.replace(from, to), "case {s:?} {from:?} {to:?}");
    }
}

#[test]
fn resolve_port_falls_back_to_default() {
    assert_eq!(resolve_port(None), DEFAULT_PORT);
    assert_eq!(resolve_port(Some("8080".to_string())), 8080);
    assert_eq!(resolve_port(Some("eighty".to_string())), 7870);
    assert_eq!(resolve_port(Some("70000".to_string())), 7870);
}

#[test]
fn trim_string_matches_std_trim() {
    for s in [
        "",
        "   ",
        "abc",
        "  a b  ",
        "\t\n\r x \u{000B}\u{000C}",
        "\u{0085}\u{00A0}x\u{1680}",
        "\u{2000}\u{200A}y z\u{2028}\u{2029}\u{202F}\u{205F}\u{3000}",
        "\u{200B}z\u{200B}",
        "\u{180E}q\u{FEFF}",
        " é ü\n",
    ] {
        assert_eq!(trim_string(s), s.trim(), "input {s:?}");
    }
    assert_eq!(trim_string("\u{3000} active \n"), "active");
}

use async_snmp::Oid;
use net_monitor::oid::parse_oid_text;
use net_monitor::snmp::create_oids;
use net_monitor::text::{
    chars_of, contains_text, decimal_text, hex_text_fixed, join_strings, pad_right, parse_u32,
    repeat_char, split_chars,
};
use net_monitor::utils::validate_oids;

fn strings(v: &[&str]) -> Vec<String> {
    v.iter().map(|s| s.to_string()).collect()
}

#[test]
fn validate_oids_accepts_dotted_numbers() {
    let oids = strings(&["1.3.6.1.2.1.1.3.0", "1.3.6.1.4.1.13267.3.2.4.1.0"]);
    assert_eq!(validate_oids(&oids), Ok(()));
}

#[test]
fn validate_oids_rejects_empty_list() {
    assert_eq!(validate_oids(&[]), Err("SNMP OID list is empty".to_string()));
}

#[test]
fn validate_oids_names_first_invalid_position() {
    let oids = strings(&["1.3.6", "1.x.6", "1..2"]);
    assert_eq!(validate_oids(&oids), Err("Invalid OID: '1.x.6' at position 1".to_string()));
}

#[test]
fn validate_oids_rejects_empty_piece_and_overflow() {
    assert_eq!(validate_oids(&strings(&["1..2"])), Err("Invalid OID: '1..2' at position 0".to_string()));
    assert_eq!(
        validate_oids(&strings(&["1.2", "4294967296"])),
        Err("Invalid OID: '4294967296' at position 1".to_string())
    );
    assert_eq!(validate_oids(&strings(&[""])), Err("Invalid OID: '' at position 0".to_string()));
    assert_eq!(validate_oids(&strings(&["4294967295.+7"])), Ok(()));
}

#[test]
fn parse_u32_follows_std_parse() {
    for s in ["0", "7", "007", "+12", "4294967295", "4294967296", "", "+", "-1", "++1", "1a", " 1", "99999999999999999999"] {
        let chars: Vec<char> = s.chars().collect();
        assert_eq!(parse_u32(&chars), s.parse::<u32>().ok(), "text {:?}", s);
    }
}

#[test]
fn parse_oid_text_gives_arcs() {
    assert_eq!(parse_oid_text("1.3.6.1"), Some(vec![1, 3, 6, 1]));
    assert_eq!(parse_oid_text("1.3."), None);
    assert_eq!(parse_oid_text(".1.3"), None);
}

#[test]
fn create_oids_builds_oids() {
    let oids = create_oids(&strings(&["1.3.6.1.2.1.1.3.0", "1.3.6.1.4.1.13267.3.2.4.1.0"])).unwrap();
    assert_eq!(oids.len(), 2);
    assert_eq!(oids[0].arcs(), &[1, 3, 6, 1, 2, 1, 1, 3, 0]);
    assert_eq!(oids[1].arcs(), &[1, 3, 6, 1, 4, 1, 13267, 3, 2, 4, 1, 0]);
    assert_eq!(create_oids(&[]).unwrap().len(), 0);
}

#[test]
fn create_oids_names_first_invalid_text() {
    let err = create_oids(&strings(&["1.3", "1.3.x", "y"])).unwrap_err();
    assert_eq!(err, "Internal error: invalid OID '1.3.x' passed to create_oids");
}

#[test]
fn validate_and_create_agree() {
    for case in [vec!["1.3.6"], vec!["1.3", "bad"], vec!["5", "6.7"], vec!["1.-1"]] {
        let oids = strings(&case);
        assert_eq!(validate_oids(&oids).is_ok(), create_oids(&oids).is_ok());
    }
}

#[test]
fn oid_text_round_trip() {
    let oid = Oid::from(vec![1, 3, 6, 1, 4294967295, 0]);
    let text = oid.to_string();
    assert_eq!(text, "1.3.6.1.4294967295.0");
    assert_eq!(parse_oid_text(&text), Some(vec![1, 3, 6, 1, 4294967295, 0]));
    let back = create_oids(&[text]).unwrap();
    assert_eq!(back[0], oid);
}

#[test]
fn decimal_and_hex_texts() {
    assert_eq!(decimal_text(0), "0");
    assert_eq!(decimal_text(1234567890), "1234567890");
    assert_eq!(decimal_text(u64::MAX), u64::MAX.to_string());
    assert_eq!(hex_text_fixed(0xabc, 12), "000000000abc");
    assert_eq!(hex_text_fixed(0x1234_5678_9abc_def0, 4), "def0");
    let chars: Vec<char> = decimal_text(4294967295).chars().collect();
    assert_eq!(parse_u32(&chars), Some(4294967295));
}

#[test]
fn padding_repeat_join() {
    assert_eq!(pad_right("ab", 5), "ab   ");
    assert_eq!(pad_right("abcdef", 3), "abcdef");
    assert_eq!(pad_right("ёж", 4), format!("{:<4}", "ёж"));
    assert_eq!(repeat_char('-', 4), "----");
    assert_eq!(join_strings(&strings(&["a", "b", "c"]), "; "), "a; b; c");
    assert_eq!(join_strings(&strings(&[]), "; "), "");
    assert_eq!(join_strings(&strings(&["x"]), "; "), "x");
}

#[test]
fn contains_and_split() {
    assert!(contains_text("missing field `log`", "missing field"));
    assert!(!contains_text("missing fiel", "missing field"));
    assert!(contains_text("abc", ""));
    let chars = chars_of("a`b`c");
    let parts: Vec<String> = split_chars(&chars, '`').into_iter().map(|p| p.into_iter().collect()).collect();
    assert_eq!(parts, vec!["a", "b", "c"]);
    let parts: Vec<String> = split_chars(&chars_of(""), '.').into_iter().map(|p| p.into_iter().collect()).collect();
    assert_eq!(parts, vec![""]);
}

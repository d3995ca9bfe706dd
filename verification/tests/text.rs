use solana_cli_sentinel::text::{decimal_string, parse_u64_str, push_padded, push_plus_signed_decimal, push_signed_decimal, trimmed};

#[test]
fn decimals_match_display() {
    for n in [0u64, 7, 10, 99, 100, 12345, u64::MAX] {
        assert_eq!(decimal_string(n), n.to_string());
    }
    for i in [0i64, -1, 1, -10, i64::MIN, i64::MAX] {
        let mut s = String::new();
        push_signed_decimal(&mut s, i);
        assert_eq!(s, format!("{}", i));
        let mut s = String::new();
        push_plus_signed_decimal(&mut s, i);
        assert_eq!(s, format!("{:+}", i));
    }
}

#[test]
fn parse_matches_std() {
    for s in ["0", "+0", "42", "007", "18446744073709551615", "18446744073709551616", "", "+", "-0", "4 2", "٣", "+-1", "++1"] {
        assert_eq!(parse_u64_str(s), s.parse::<u64>().ok(), "input {:?}", s);
    }
}

#[test]
fn padding_matches_format_width() {
    for s in ["", "abc", "отставание", "0123456789012"] {
        let mut out = String::from(">");
        push_padded(&mut out, s, 12);
        assert_eq!(out, format!(">{:<12}", s));
    }
}

#[test]
fn trim_matches_std() {
    for s in ["", "  ", " a ", "\u{2003}x\u{85}", "\tтекст\n", "a b", "\u{200b}x"] {
        assert_eq!(trimmed(s), s.trim(), "input {:?}", s);
    }
}

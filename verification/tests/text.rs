use lettermint::text::{parse_u32, parse_u64, push_decimal, str_chars, trim_chars};

fn chars(s: &str) -> Vec<char> {
    s.chars().collect()
}

#[test]
fn parses_like_std() {
    for s in ["0", "42", "+7", "", "+", "-1", " 1", "1 ", "18446744073709551615", "18446744073709551616", "1a"] {
        assert_eq!(parse_u64(&chars(s)), s.parse::<u64>().ok(), "{s:?}");
    }
    for s in ["4294967295", "4294967296", "+0", "007"] {
        assert_eq!(parse_u32(&chars(s)), s.parse::<u32>().ok(), "{s:?}");
    }
}

#[test]
fn prints_decimal() {
    for n in [0u128, 7, 10, 1234567890, u64::MAX as u128, u128::MAX] {
        let mut v = Vec::new();
        push_decimal(&mut v, n);
        assert_eq!(v.iter().collect::<String>(), n.to_string());
    }
}

#[test]
fn trims_like_std() {
    for s in ["", "   ", " a b ", "\u{85}x\u{A0}", "\u{200B}y", "\u{2028}\u{3000}z\u{202F}\u{205F}"] {
        assert_eq!(trim_chars(&chars(s)).iter().collect::<String>(), s.trim(), "{s:?}");
    }
}

#[test]
fn splits_str_into_chars() {
    let v = str_chars("héllo");
    assert_eq!(v, vec!['h', 'é', 'l', 'l', 'o']);
}

use asus_touchpad_numpad::text::{
    chars_of, decimal_i32, lines, parse_i32, split, split_once, string_of, trim, trim_char, words,
};

fn v(s: &str) -> Vec<char> {
    s.chars().collect()
}

fn texts(x: Vec<Vec<char>>) -> Vec<String> {
    x.into_iter().map(|c| c.into_iter().collect()).collect()
}

#[test]
fn chars_and_string_roundtrip() {
    let c = chars_of("héllo");
    assert_eq!(c, vec!['h', 'é', 'l', 'l', 'o']);
    assert_eq!(string_of(&c), "héllo");
}

#[test]
fn trim_matches_std() {
    for s in ["  a b  ", "\t\n x\u{3000}", "", "   ", "abc", "\u{85}z\u{a0}"] {
        let t: String = trim(&v(s)).into_iter().collect();
        assert_eq!(t, s.trim());
    }
}

#[test]
fn trim_char_matches_std() {
    for s in ["\"quoted\"", "\"\"", "\"", "no", "\"a\"b\""] {
        let t: String = trim_char(&v(s), '"').into_iter().collect();
        assert_eq!(t, s.trim_matches('"'));
    }
}

#[test]
fn split_matches_std() {
    for s in ["a\n\nb", "a\n\n\nb", "", "a\n\n", "\n\n\n\n", "abc"] {
        let got = texts(split(&v(s), &v("\n\n")));
        let want: Vec<String> = s.split("\n\n").map(|x| x.to_string()).collect();
        assert_eq!(got, want, "input {:?}", s);
    }
}

#[test]
fn lines_matches_std() {
    for s in ["a\nb", "a\r\nb\r\n", "a\n\nb\n", "", "\n", "x\r", "a\rb\nc"] {
        let got = texts(lines(&v(s)));
        let want: Vec<String> = s.lines().map(|x| x.to_string()).collect();
        assert_eq!(got, want, "input {:?}", s);
    }
}

#[test]
fn words_matches_std() {
    for s in ["  a  bb\tccc\n", "", "   ", "one", "x\u{2003}y"] {
        let got = texts(words(&v(s)));
        let want: Vec<String> = s.split_whitespace().map(|x| x.to_string()).collect();
        assert_eq!(got, want, "input {:?}", s);
    }
}

#[test]
fn split_once_matches_std() {
    let (k, r) = split_once(&v("N: Name=\"x\""), &v(": "));
    assert_eq!(k, v("N"));
    assert_eq!(r, Some(v("Name=\"x\"")));
    let (k, r) = split_once(&v("no separator"), &v(": "));
    assert_eq!(k, v("no separator"));
    assert_eq!(r, None);
}

#[test]
fn parse_i32_matches_std() {
    for s in [
        "0", "42", "+7", "-7", "", "+", "-", "2147483647", "2147483648", "-2147483648",
        "-2147483649", "12a", "٣", "00012", "99999999999999999999",
    ] {
        assert_eq!(parse_i32(&v(s)), s.parse::<i32>().ok(), "input {:?}", s);
    }
}

#[test]
fn decimal_matches_to_string() {
    for n in [0, 7, 10, 123, -1, -45, i32::MAX, i32::MIN] {
        let d: String = decimal_i32(n).into_iter().collect();
        assert_eq!(d, n.to_string());
        assert_eq!(parse_i32(&decimal_i32(n)), Some(n));
    }
}

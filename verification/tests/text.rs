use soar_dl::decimal::{decimal_chars, parse_u64_chars};
use soar_dl::path::{file_name_chars, join_chars, parent_chars};
use soar_dl::text::{
    chars_of, contains_chars, ends_with_chars, lowercase_chars, rsplit_once_chars, same_text,
    scan, scan_back, split_chars, split_once_chars, starts_with_chars, string_of, trim_chars,
    trim_end_chars, CharClass,
};

fn c(s: &str) -> Vec<char> {
    chars_of(s)
}

fn s(v: &Vec<char>) -> String {
    string_of(v)
}

#[test]
fn chars_round_trip() {
    for text in ["", "abc", "gr\u{fc}\u{df}e", "a\u{1F600}b"] {
        assert_eq!(s(&c(text)), text);
        assert_eq!(c(text), text.chars().collect::<Vec<char>>());
    }
}

#[test]
fn whitespace_class_agrees_with_the_standard_library() {
    let mut n: u32 = 0;
    while n <= 0x3100 {
        if let Some(ch) = char::from_u32(n) {
            assert_eq!(CharClass::Space.test(ch), ch.is_whitespace(), "U+{:04X}", n);
        }
        n += 1;
    }
    assert!(CharClass::Quoting.test('\''));
    assert!(CharClass::Quoting.test('"'));
    assert!(CharClass::Quoting.test(' '));
    assert!(!CharClass::Quoting.test('\t'));
    assert!(CharClass::Just('x').test('x'));
    assert!(!CharClass::Just('x').test('y'));
}

#[test]
fn scanning() {
    let v = c("  ab  ");
    assert_eq!(scan(&v, 0, CharClass::Space, false), 2);
    assert_eq!(scan(&v, 2, CharClass::Space, true), 4);
    assert_eq!(scan(&v, 4, CharClass::Space, false), 6);
    assert_eq!(scan_back(&v, 6, CharClass::Space, false), 4);
    assert_eq!(scan_back(&v, 2, CharClass::Space, false), 0);
    assert_eq!(scan(&c(""), 0, CharClass::Just('x'), true), 0);
}

#[test]
fn splitting() {
    let parts: Vec<String> = split_chars(&c("a,b,,c"), ',').iter().map(s).collect();
    assert_eq!(parts, vec!["a", "b", "", "c"]);
    let parts: Vec<String> = split_chars(&c(""), ',').iter().map(s).collect();
    assert_eq!(parts, vec![""]);
    let parts: Vec<String> = split_chars(&c(","), ',').iter().map(s).collect();
    assert_eq!(parts, vec!["", ""]);
    for text in ["", "a", "a;b", ";a;;b;", ";;;"] {
        let mine: Vec<String> = split_chars(&c(text), ';').iter().map(s).collect();
        let std: Vec<String> = text.split(';').map(|p| p.to_string()).collect();
        assert_eq!(mine, std);
    }
}

#[test]
fn splitting_once() {
    let (a, b) = split_once_chars(&c("k: v: w"), ':').unwrap();
    assert_eq!((s(&a), s(&b)), ("k".to_string(), " v: w".to_string()));
    assert!(split_once_chars(&c("kv"), ':').is_none());
    let (a, b) = rsplit_once_chars(&c("a/b/c"), '/').unwrap();
    assert_eq!((s(&a), s(&b)), ("a/b".to_string(), "c".to_string()));
    assert!(rsplit_once_chars(&c("abc"), '/').is_none());
    let (a, b) = rsplit_once_chars(&c("/"), '/').unwrap();
    assert_eq!((s(&a), s(&b)), (String::new(), String::new()));
}

#[test]
fn trimming() {
    for text in ["", " ", "  a b \t\n", "a", "\u{a0}x\u{3000}", " \"q\" "] {
        assert_eq!(s(&trim_chars(&c(text), CharClass::Space)), text.trim());
    }
    assert_eq!(s(&trim_chars(&c("\"a\"b\"\""), CharClass::Just('"'))), "a\"b");
    assert_eq!(s(&trim_chars(&c("' \"v1\" '"), CharClass::Quoting)), "v1");
    assert_eq!(s(&trim_chars(&c("\"\""), CharClass::Just('"'))), "");
    assert_eq!(s(&trim_end_chars(&c("a//"), CharClass::Just('/'))), "a");
    assert_eq!(s(&trim_end_chars(&c("//"), CharClass::Just('/'))), "");
    assert_eq!(s(&trim_end_chars(&c("/a"), CharClass::Just('/'))), "/a");
}

#[test]
fn searching() {
    assert!(contains_chars(&c("app-linux-amd64"), &c("linux")));
    assert!(contains_chars(&c("abc"), &c("")));
    assert!(contains_chars(&c(""), &c("")));
    assert!(!contains_chars(&c("abc"), &c("abcd")));
    assert!(!contains_chars(&c("ababab"), &c("abb")));
    assert!(contains_chars(&c("aab"), &c("ab")));
    assert!(starts_with_chars(&c("ghcr.io/x"), &c("ghcr.io")));
    assert!(!starts_with_chars(&c("xghcr.io"), &c("ghcr.io")));
    assert!(ends_with_chars(&c("dir/"), &c("/")));
    assert!(!ends_with_chars(&c("dir"), &c("/")));
    assert!(same_text("abc", "abc"));
    assert!(!same_text("abc", "abd"));
    assert!(!same_text("abc", "ab"));
}

#[test]
fn lowercase_is_the_standard_library_mapping() {
    for text in ["ABC", "\u{c4}\u{d6}\u{dc}", "MiXed-09", "\u{3a3}\u{3a3}"] {
        assert_eq!(s(&lowercase_chars(&c(text))), text.to_lowercase());
    }
}

#[test]
fn reading_numbers() {
    assert_eq!(parse_u64_chars(&c("0")), Some(0));
    assert_eq!(parse_u64_chars(&c("600")), Some(600));
    assert_eq!(parse_u64_chars(&c("+7")), Some(7));
    assert_eq!(parse_u64_chars(&c("007")), Some(7));
    assert_eq!(parse_u64_chars(&c("18446744073709551615")), Some(u64::MAX));
    assert_eq!(parse_u64_chars(&c("18446744073709551616")), None);
    assert_eq!(parse_u64_chars(&c("99999999999999999999999")), None);
    assert_eq!(parse_u64_chars(&c("")), None);
    assert_eq!(parse_u64_chars(&c("+")), None);
    assert_eq!(parse_u64_chars(&c("-1")), None);
    assert_eq!(parse_u64_chars(&c("++1")), None);
    assert_eq!(parse_u64_chars(&c("1 ")), None);
    assert_eq!(parse_u64_chars(&c("12a")), None);
    assert_eq!(parse_u64_chars(&c("*")), None);
    for text in ["0", "+0", "42", "x", "", "+", "18446744073709551615", "18446744073709551616"] {
        assert_eq!(parse_u64_chars(&c(text)), text.parse::<u64>().ok());
    }
}

#[test]
fn writing_numbers() {
    for n in [0u64, 1, 9, 10, 99, 100, 600, 1024, 1234567890, u64::MAX] {
        assert_eq!(s(&decimal_chars(n)), n.to_string());
    }
}

#[test]
fn final_component() {
    let cases = [
        ("/F.bin", Some("F.bin")),
        ("/a/b/c.txt", Some("c.txt")),
        ("/a/b/", Some("b")),
        ("/a/b/.", Some("b")),
        ("/a/./", Some("a")),
        ("/", None),
        ("", None),
        (".", None),
        ("./", None),
        ("..", None),
        ("a/..", None),
        ("a//b", Some("b")),
        (".hidden", Some(".hidden")),
        ("a.", Some("a.")),
        ("...", Some("...")),
    ];
    for (path, want) in cases {
        let got = file_name_chars(&c(path)).map(|n| s(&n));
        assert_eq!(got.as_deref(), want, "{:?}", path);
        let std = std::path::Path::new(path).file_name().map(|n| n.to_string_lossy().to_string());
        assert_eq!(got, std, "{:?}", path);
    }
}

#[test]
fn joining() {
    let cases = [
        ("/tmp/", "a.tar.gz", "/tmp/a.tar.gz"),
        ("/tmp", "a", "/tmp/a"),
        ("", "a", "a"),
        ("dir", "/abs", "/abs"),
        ("dir/", "", "dir/"),
        ("dir", "", "dir/"),
        ("/", "a", "/a"),
    ];
    for (dir, name, want) in cases {
        assert_eq!(s(&join_chars(&c(dir), &c(name))), want);
        let std = std::path::Path::new(dir).join(name).to_string_lossy().to_string();
        assert_eq!(s(&join_chars(&c(dir), &c(name))), std);
    }
}

#[test]
fn holding_directory() {
    let cases = [
        ("/a/b", Some("/a")),
        ("/a", Some("/")),
        ("/", None),
        ("/a/b/", Some("/a")),
        ("/a/./b/.", Some("/a")),
        ("/a/..", Some("/a")),
        ("//a", Some("/")),
        ("a/b", Some("a")),
        ("a", Some("")),
        ("", None),
    ];
    for (path, want) in cases {
        let got = parent_chars(&c(path)).map(|n| s(&n));
        assert_eq!(got.as_deref(), want, "{:?}", path);
        let std = std::path::Path::new(path).parent().map(|n| n.to_string_lossy().to_string());
        assert_eq!(got, std, "{:?}", path);
    }
}

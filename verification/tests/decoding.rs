use tdc::vscode::{hex_encode, json_string, shell_quote, uri_encode_path};

const SAMPLES: [&str; 7] = [
    "",
    "plain",
    "/tmp/it's ok",
    "'''",
    "a\\b\"c",
    "/home/a user/wörk/é~_.-",
    "tab\there\nnew\u{1}\u{7f}\u{9f}",
];

/// Reads a word written with single-quoted runs and backslash escapes, as a
/// POSIX shell does.
fn read_shell_word(s: &str) -> Option<String> {
    let mut out = String::new();
    let mut chars = s.chars();
    let mut quoted = false;
    while let Some(c) = chars.next() {
        if quoted {
            if c == '\'' {
                quoted = false;
            } else {
                out.push(c);
            }
        } else if c == '\'' {
            quoted = true;
        } else if c == '\\' {
            out.push(chars.next()?);
        } else {
            return None;
        }
    }
    if quoted {
        None
    } else {
        Some(out)
    }
}

fn hex_value(c: u8) -> u8 {
    match c {
        b'0'..=b'9' => c - b'0',
        b'a'..=b'f' => c - b'a' + 10,
        b'A'..=b'F' => c - b'A' + 10,
        _ => panic!("not a hex digit"),
    }
}

fn read_hex(s: &str) -> Vec<u8> {
    let b = s.as_bytes();
    assert_eq!(b.len() % 2, 0);
    b.chunks(2).map(|p| hex_value(p[0]) * 16 + hex_value(p[1])).collect()
}

fn read_percent(s: &str) -> Vec<u8> {
    let b = s.as_bytes();
    let mut out = Vec::new();
    let mut i: usize = 0;
    while i < b.len() {
        if b[i] == b'%' {
            out.push(hex_value(b[i + 1]) * 16 + hex_value(b[i + 2]));
            i += 3;
        } else {
            assert!(b[i] < 128);
            out.push(b[i]);
            i += 1;
        }
    }
    out
}

fn read_json_string(s: &str) -> String {
    let body = s.strip_prefix('"').unwrap().strip_suffix('"').unwrap();
    let mut out = String::new();
    let mut chars = body.chars();
    while let Some(c) = chars.next() {
        assert!(c != '"' && (c as u32) >= 32);
        if c != '\\' {
            out.push(c);
            continue;
        }
        match chars.next().unwrap() {
            '"' => out.push('"'),
            '\\' => out.push('\\'),
            'n' => out.push('\n'),
            'r' => out.push('\r'),
            't' => out.push('\t'),
            'u' => {
                let hex: String = chars.by_ref().take(4).collect();
                let n: u32 = u32::from_str_radix(&hex, 16).unwrap();
                out.push(char::from_u32(n).unwrap());
            }
            other => panic!("unexpected escape {other}"),
        }
    }
    out
}

#[test]
fn shell_quoted_words_read_back() {
    for s in SAMPLES {
        assert_eq!(read_shell_word(&shell_quote(s)).as_deref(), Some(s));
    }
}

#[test]
fn hex_text_reads_back() {
    for s in SAMPLES {
        assert_eq!(read_hex(&hex_encode(s)), s.as_bytes());
    }
}

#[test]
fn percent_encoded_paths_read_back() {
    for s in SAMPLES {
        assert_eq!(read_percent(&uri_encode_path(s)), s.as_bytes());
    }
}

#[test]
fn json_string_literals_read_back() {
    for s in SAMPLES {
        assert_eq!(read_json_string(&json_string(s)), s);
    }
}

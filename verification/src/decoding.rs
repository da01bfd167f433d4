//! How the other end reads what this library writes: a POSIX shell reading a
//! quoted word, VS Code reading the hexadecimal and percent-encoded parts of a
//! URI, a JSON parser reading a string literal.  The laws here say that each
//! reads back exactly what was encoded.
use vstd::prelude::*;

use crate::text::{hex_lower, hex_upper, lemma_replace_char_append, replace_char};
use crate::vscode::{
    hex_encode_spec, is_control, is_uri_path_byte, json_escape, json_escape_all,
    json_string_spec, shell_quote_spec, uri_encode, uri_encode_byte,
};

verus! {

// ---------------------------------------------------------------------------
// Shell words
// ---------------------------------------------------------------------------

/// How a POSIX shell reads `s` as one word, where `s` is written only with
/// single-quoted runs and backslash-escaped chars (`None` for any other text).
/// `quoted` says whether the reader starts inside single quotes.
pub open spec fn sh_read(s: Seq<char>, quoted: bool) -> Option<Seq<char>>
    decreases s.len(),
{
    if s.len() == 0 {
        if quoted {
            None
        } else {
            Some(seq![])
        }
    } else if quoted {
        if s[0] == '\'' {
            sh_read(s.drop_first(), false)
        } else {
            prepend(seq![s[0]], sh_read(s.drop_first(), true))
        }
    } else if s[0] == '\'' {
        sh_read(s.drop_first(), true)
    } else if s[0] == '\\' && s.len() >= 2 {
        prepend(seq![s[1]], sh_read(s.skip(2), false))
    } else {
        None
    }
}

/// `p` in front of the word that was read, if one was.
pub open spec fn prepend(p: Seq<char>, o: Option<Seq<char>>) -> Option<Seq<char>> {
    match o {
        Some(r) => Some(p + r),
        None => None,
    }
}

/// Quoting makes one shell word that the shell reads back as exactly `value`,
/// whatever chars `value` holds.
pub proof fn lemma_shell_quote_reads_back(value: Seq<char>)
    ensures
        sh_read(shell_quote_spec(value), false) == Some(value),
{
    let q = replace_char(value, '\'', "'\\''"@);
    lemma_read_quoted_run(value, "'"@);
    assert(sh_read("'"@, true) == Some(Seq::<char>::empty())) by {
        reveal_strlit("'");
        assert("'"@.drop_first() =~= Seq::<char>::empty());
        assert(sh_read(Seq::<char>::empty(), false) == Some(Seq::<char>::empty()));
    }
    assert(value + Seq::<char>::empty() =~= value);
    reveal_strlit("'");
    assert(shell_quote_spec(value).drop_first() =~= q + "'"@);
}

/// Inside single quotes, the quoted form of `v` reads as `v`, and reading
/// goes on in quotes with what follows.
proof fn lemma_read_quoted_run(v: Seq<char>, t: Seq<char>)
    ensures
        sh_read(replace_char(v, '\'', "'\\''"@) + t, true) == prepend(v, sh_read(t, true)),
    decreases v.len(),
{
    let r = "'\\''"@;
    if v.len() == 0 {
        assert(replace_char(v, '\'', r) + t =~= t);
        match sh_read(t, true) {
            Some(x) => assert(v + x =~= x),
            None => {},
        }
    } else {
        let c = v[0];
        let w = v.drop_first();
        lemma_replace_char_append(seq![c], w, '\'', r);
        assert(seq![c] + w =~= v);
        assert(seq![c].drop_last() =~= Seq::<char>::empty());
        lemma_read_quoted_run(w, t);
        let rest = replace_char(w, '\'', r) + t;
        let head = if c == '\'' {
            r
        } else {
            seq![c]
        };
        assert(replace_char(seq![c], '\'', r) =~= head) by {
            assert(replace_char(Seq::<char>::empty(), '\'', r) == Seq::<char>::empty());
            assert(Seq::<char>::empty() + head =~= head);
        }
        assert(replace_char(v, '\'', r) + t =~= head + rest);
        if c == '\'' {
            reveal_strlit("'\\''");
            let s = replace_char(v, '\'', r) + t;
            assert(s =~= r + rest);
            assert(s.drop_first() =~= seq!['\\', '\'', '\''] + rest);
            assert(s.drop_first().skip(2) =~= seq!['\''] + rest);
            assert((seq!['\''] + rest).drop_first() =~= rest);
            assert(sh_read(seq!['\''] + rest, false) == sh_read(rest, true));
            assert(s.drop_first()[1] == '\'');
            assert(sh_read(s.drop_first(), false) == prepend(
                seq!['\''],
                sh_read(seq!['\''] + rest, false),
            ));
            assert(sh_read(s, true) == sh_read(s.drop_first(), false));
            match sh_read(t, true) {
                Some(x) => assert(seq![c] + (w + x) =~= v + x),
                None => {},
            }
        } else {
            let s = replace_char(v, '\'', r) + t;
            assert(s =~= seq![c] + rest);
            assert(s.drop_first() =~= rest);
            assert(sh_read(s, true) == prepend(seq![c], sh_read(rest, true)));
            match sh_read(t, true) {
                Some(x) => assert(seq![c] + (w + x) =~= v + x),
                None => {},
            }
        }
    }
}

// ---------------------------------------------------------------------------
// Hexadecimal and percent-encoding
// ---------------------------------------------------------------------------

/// The value of a hexadecimal digit of either case.
pub open spec fn hex_value(c: char) -> Option<nat> {
    if '0' <= c && c <= '9' {
        Some((c as nat - 48) as nat)
    } else if 'a' <= c && c <= 'f' {
        Some((c as nat - 87) as nat)
    } else if 'A' <= c && c <= 'F' {
        Some((c as nat - 55) as nat)
    } else {
        None
    }
}

/// The byte of two hexadecimal digits.
pub open spec fn hex_byte(hi: char, lo: char) -> Option<u8> {
    match (hex_value(hi), hex_value(lo)) {
        (Some(h), Some(l)) => Some((h * 16 + l) as u8),
        _ => None,
    }
}

/// A byte in front of the bytes that were read, if they were.
pub open spec fn prepend_byte(b: u8, o: Option<Seq<u8>>) -> Option<Seq<u8>> {
    match o {
        Some(r) => Some(seq![b] + r),
        None => None,
    }
}

/// Hexadecimal text read two digits per byte, left to right.
pub open spec fn hex_decode(s: Seq<char>) -> Option<Seq<u8>>
    decreases s.len(),
{
    if s.len() == 0 {
        Some(seq![])
    } else if s.len() == 1 {
        None
    } else {
        match hex_byte(s[0], s[1]) {
            Some(b) => prepend_byte(b, hex_decode(s.skip(2))),
            None => None,
        }
    }
}

/// A percent-encoded URI path read left to right: `%XX` is the byte `XX`, an
/// ASCII char stands for itself.
pub open spec fn uri_decode(s: Seq<char>) -> Option<Seq<u8>>
    decreases s.len(),
{
    if s.len() == 0 {
        Some(seq![])
    } else if s[0] == '%' {
        if s.len() < 3 {
            None
        } else {
            match hex_byte(s[1], s[2]) {
                Some(b) => prepend_byte(b, uri_decode(s.skip(3))),
                None => None,
            }
        }
    } else if (s[0] as nat) < 128 {
        prepend_byte((s[0] as nat) as u8, uri_decode(s.drop_first()))
    } else {
        None
    }
}

proof fn lemma_hex_digits(d: nat)
    requires
        d < 16,
    ensures
        hex_value(hex_lower(d)) == Some(d),
        hex_value(hex_upper(d)) == Some(d),
{
}

proof fn lemma_byte_digits(b: u8)
    ensures
        hex_byte(hex_lower((b / 16) as nat), hex_lower((b % 16) as nat)) == Some(b),
        hex_byte(hex_upper((b / 16) as nat), hex_upper((b % 16) as nat)) == Some(b),
{
    lemma_hex_digits((b / 16) as nat);
    lemma_hex_digits((b % 16) as nat);
}

/// Encoding a concatenation encodes each part.
proof fn lemma_hex_encode_append(a: Seq<u8>, b: Seq<u8>)
    ensures
        hex_encode_spec(a + b) == hex_encode_spec(a) + hex_encode_spec(b),
    decreases b.len(),
{
    if b.len() == 0 {
        assert(a + b =~= a);
        assert(hex_encode_spec(a) + hex_encode_spec(b) =~= hex_encode_spec(a));
    } else {
        lemma_hex_encode_append(a, b.drop_last());
        assert((a + b).drop_last() =~= a + b.drop_last());
        assert((a + b).last() == b.last());
        let tail = seq![hex_lower((b.last() / 16) as nat), hex_lower((b.last() % 16) as nat)];
        assert(hex_encode_spec(a) + hex_encode_spec(b.drop_last()) + tail =~= hex_encode_spec(a)
            + (hex_encode_spec(b.drop_last()) + tail));
    }
}

/// Reading the hexadecimal text of `bytes` gives `bytes` back.
pub proof fn lemma_hex_encode_reads_back(bytes: Seq<u8>)
    ensures
        hex_decode(hex_encode_spec(bytes)) == Some(bytes),
    decreases bytes.len(),
{
    if bytes.len() > 0 {
        let b = bytes[0];
        let rest = bytes.drop_first();
        assert(seq![b] + rest =~= bytes);
        lemma_hex_encode_append(seq![b], rest);
        assert(seq![b].drop_last() =~= Seq::<u8>::empty());
        let pair = seq![hex_lower((b / 16) as nat), hex_lower((b % 16) as nat)];
        assert(hex_encode_spec(seq![b]) =~= pair) by {
            assert(hex_encode_spec(Seq::<u8>::empty()) == Seq::<char>::empty());
            assert(seq![b].last() == b);
        }
        let s = hex_encode_spec(bytes);
        assert(s =~= pair + hex_encode_spec(rest));
        assert(s.skip(2) =~= hex_encode_spec(rest));
        lemma_byte_digits(b);
        lemma_hex_encode_reads_back(rest);
    }
}

/// Encoding a concatenation encodes each part.
proof fn lemma_uri_encode_append(a: Seq<u8>, b: Seq<u8>)
    ensures
        uri_encode(a + b) == uri_encode(a) + uri_encode(b),
    decreases b.len(),
{
    if b.len() == 0 {
        assert(a + b =~= a);
        assert(uri_encode(a) + uri_encode(b) =~= uri_encode(a));
    } else {
        lemma_uri_encode_append(a, b.drop_last());
        assert((a + b).drop_last() =~= a + b.drop_last());
        assert((a + b).last() == b.last());
        let tail = uri_encode_byte(b.last());
        assert(uri_encode(a) + uri_encode(b.drop_last()) + tail =~= uri_encode(a) + (uri_encode(
            b.drop_last(),
        ) + tail));
    }
}

/// Reading the percent-encoded path of `bytes` gives `bytes` back.
pub proof fn lemma_uri_encode_reads_back(bytes: Seq<u8>)
    ensures
        uri_decode(uri_encode(bytes)) == Some(bytes),
    decreases bytes.len(),
{
    if bytes.len() > 0 {
        let b = bytes[0];
        let rest = bytes.drop_first();
        assert(seq![b] + rest =~= bytes);
        lemma_uri_encode_append(seq![b], rest);
        assert(seq![b].drop_last() =~= Seq::<u8>::empty());
        let unit = uri_encode_byte(b);
        assert(uri_encode(seq![b]) =~= unit) by {
            assert(uri_encode(Seq::<u8>::empty()) == Seq::<char>::empty());
            assert(seq![b].last() == b);
            assert(Seq::<char>::empty() + unit =~= unit);
        }
        let s = uri_encode(bytes);
        assert(s =~= unit + uri_encode(rest));
        lemma_uri_encode_reads_back(rest);
        if is_uri_path_byte(b) {
            assert(s.drop_first() =~= uri_encode(rest));
            assert(((b as char) as nat) == b);
        } else {
            assert(s.skip(3) =~= uri_encode(rest));
            lemma_byte_digits(b);
        }
    }
}

// ---------------------------------------------------------------------------
// JSON string literals
// ---------------------------------------------------------------------------

/// The char of a one-letter JSON escape `\x`.
pub open spec fn json_short_escape(x: char) -> Option<char> {
    if x == '"' {
        Some('"')
    } else if x == '\\' {
        Some('\\')
    } else if x == '/' {
        Some('/')
    } else if x == 'b' {
        Some('\u{8}')
    } else if x == 'f' {
        Some('\u{c}')
    } else if x == 'n' {
        Some('\n')
    } else if x == 'r' {
        Some('\r')
    } else if x == 't' {
        Some('\t')
    } else {
        None
    }
}

/// The value of four hexadecimal digits.
pub open spec fn hex4_value(a: char, b: char, c: char, d: char) -> Option<nat> {
    match (hex_value(a), hex_value(b), hex_value(c), hex_value(d)) {
        (Some(w), Some(x), Some(y), Some(z)) => Some(w * 4096 + x * 256 + y * 16 + z),
        _ => None,
    }
}

/// Whether the text between the quotes of a JSON string literal reads as `v`:
/// escapes decoded, and no raw `"`, `\` or control char below U+0020.
pub open spec fn json_body_reads(s: Seq<char>, v: Seq<char>) -> bool
    decreases s.len(),
{
    if s.len() == 0 {
        v.len() == 0
    } else if v.len() == 0 {
        false
    } else if s[0] == '\\' {
        if s.len() < 2 {
            false
        } else if s[1] == 'u' {
            &&& s.len() >= 6
            &&& hex4_value(s[2], s[3], s[4], s[5]) == Some(v[0] as nat)
            &&& json_body_reads(s.skip(6), v.drop_first())
        } else {
            &&& json_short_escape(s[1]) == Some(v[0])
            &&& json_body_reads(s.skip(2), v.drop_first())
        }
    } else {
        &&& s[0] != '"'
        &&& (s[0] as nat) >= 32
        &&& v[0] == s[0]
        &&& json_body_reads(s.drop_first(), v.drop_first())
    }
}

/// Whether `s` is a JSON string literal that reads as `v`.
pub open spec fn json_string_reads(s: Seq<char>, v: Seq<char>) -> bool {
    &&& s.len() >= 2
    &&& s[0] == '"'
    &&& s.last() == '"'
    &&& json_body_reads(s.subrange(1, s.len() - 1), v)
}

/// Escaping a concatenation escapes each part.
proof fn lemma_json_escape_append(a: Seq<char>, b: Seq<char>)
    ensures
        json_escape_all(a + b) == json_escape_all(a) + json_escape_all(b),
    decreases b.len(),
{
    if b.len() == 0 {
        assert(a + b =~= a);
        assert(json_escape_all(a) + json_escape_all(b) =~= json_escape_all(a));
    } else {
        lemma_json_escape_append(a, b.drop_last());
        assert((a + b).drop_last() =~= a + b.drop_last());
        assert((a + b).last() == b.last());
        let tail = json_escape(b.last());
        assert(json_escape_all(a) + json_escape_all(b.drop_last()) + tail =~= json_escape_all(a)
            + (json_escape_all(b.drop_last()) + tail));
    }
}

/// One escaped char, then more text, reads as that char and what the rest reads as.
proof fn lemma_json_escape_reads(c: char, rest: Seq<char>, v: Seq<char>)
    requires
        json_body_reads(rest, v),
    ensures
        json_body_reads(json_escape(c) + rest, seq![c] + v),
{
    let s = json_escape(c) + rest;
    let w = seq![c] + v;
    assert(w.drop_first() =~= v);
    assert(w[0] == c);
    if c == '"' || c == '\\' || c == '\n' || c == '\r' || c == '\t' {
        assert(s.skip(2) =~= rest);
    } else if is_control(c) {
        let n = c as nat;
        assert(n < 160);
        lemma_hex_digits((n / 4096) % 16);
        lemma_hex_digits((n / 256) % 16);
        lemma_hex_digits((n / 16) % 16);
        lemma_hex_digits(n % 16);
        assert(s.skip(6) =~= rest);
        assert(hex4_value(s[2], s[3], s[4], s[5]) == Some(n));
    } else {
        assert(s.drop_first() =~= rest);
    }
}

/// Reading the JSON string literal of `value` gives `value` back.
pub proof fn lemma_json_string_reads_back(value: Seq<char>)
    ensures
        json_string_reads(json_string_spec(value), value),
{
    lemma_json_body_reads_back(value);
    let s = json_string_spec(value);
    assert(s.subrange(1, s.len() - 1) =~= json_escape_all(value));
}

proof fn lemma_json_body_reads_back(value: Seq<char>)
    ensures
        json_body_reads(json_escape_all(value), value),
    decreases value.len(),
{
    if value.len() > 0 {
        let c = value[0];
        let rest = value.drop_first();
        assert(seq![c] + rest =~= value);
        lemma_json_escape_append(seq![c], rest);
        assert(seq![c].drop_last() =~= Seq::<char>::empty());
        assert(json_escape_all(seq![c]) =~= json_escape(c)) by {
            assert(json_escape_all(Seq::<char>::empty()) == Seq::<char>::empty());
            assert(seq![c].last() == c);
            assert(Seq::<char>::empty() + json_escape(c) =~= json_escape(c));
        }
        lemma_json_body_reads_back(rest);
        lemma_json_escape_reads(c, json_escape_all(rest), rest);
    }
}

} // verus!

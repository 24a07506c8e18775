//! The members of a JSON object as they stand in its text, duplicates included.
//!
//! A parsed document keeps one value per name, so a name that occurs twice is only seen in
//! the text. The scan below reads a text that is one JSON object and lists, in order, the
//! spans of the names of its own members (not those of nested objects), undecoded.

use vstd::prelude::*;
use vstd::string::*;

verus! {

/// Where a left-to-right scan of a JSON text stands after some prefix.
pub struct KeyScan {
    /// How many objects and arrays are open.
    pub depth: int,
    /// Whether the scan is inside a string.
    pub in_string: bool,
    /// Whether the last character was a backslash inside a string.
    pub escaped: bool,
    /// Where the content of the current (or last) string begins.
    pub string_start: int,
    /// Whether the current (or last) string was opened directly inside the outer value.
    pub string_top: bool,
    /// The content span of a string just closed directly inside the outer value, which is
    /// a member name if a colon follows.
    pub pending: Option<(int, int)>,
    /// The content spans of the member names of the outer object, in order.
    pub keys: Seq<(int, int)>,
    /// Whether the value of a member of the outer object is being read, and where it began.
    pub value_open: bool,
    pub value_start: int,
    /// The spans of the member values of the outer object, in order.
    pub values: Seq<(int, int)>,
}

/// White space between JSON tokens.
pub open spec fn is_json_space(c: char) -> bool {
    c == ' ' || c == '\t' || c == '\n' || c == '\r'
}

pub open spec fn scan_start() -> KeyScan {
    KeyScan {
        depth: 0,
        in_string: false,
        escaped: false,
        string_start: 0,
        string_top: false,
        pending: None,
        keys: Seq::empty(),
        value_open: false,
        value_start: 0,
        values: Seq::empty(),
    }
}

/// One character `c`, at index `i`, of the scan.
pub open spec fn scan_step(st: KeyScan, c: char, i: int) -> KeyScan {
    if st.in_string {
        if st.escaped {
            KeyScan { escaped: false, ..st }
        } else if c == '\\' {
            KeyScan { escaped: true, ..st }
        } else if c == '"' {
            KeyScan {
                in_string: false,
                pending: if st.string_top { Some((st.string_start, i)) } else { None },
                ..st
            }
        } else {
            st
        }
    } else if c == '"' {
        KeyScan { in_string: true, escaped: false, string_start: i + 1, string_top: st.depth == 1, pending: None, ..st }
    } else if is_json_space(c) {
        st
    } else if c == ':' {
        match st.pending {
            Some(p) => KeyScan { keys: st.keys.push(p), pending: None, value_open: true, value_start: i + 1, ..st },
            None => st,
        }
    } else if c == '{' || c == '[' {
        KeyScan { depth: st.depth + 1, pending: None, ..st }
    } else if (c == '}' || c == ',') && st.depth == 1 && st.value_open {
        KeyScan {
            depth: if c == '}' { st.depth - 1 } else { st.depth },
            pending: None,
            value_open: false,
            values: st.values.push((st.value_start, i)),
            ..st
        }
    } else if c == '}' || c == ']' {
        KeyScan { depth: st.depth - 1, pending: None, ..st }
    } else {
        KeyScan { pending: None, ..st }
    }
}

/// The scan after the whole of `text`.
pub open spec fn scan(text: Seq<char>) -> KeyScan
    decreases text.len(),
{
    if text.len() == 0 {
        scan_start()
    } else {
        scan_step(scan(text.drop_last()), text.last(), text.len() - 1)
    }
}

/// The value of a hexadecimal digit.
pub open spec fn hex_value(c: char) -> Option<nat> {
    if '0' <= c && c <= '9' {
        Some((c as nat - '0' as nat) as nat)
    } else if 'a' <= c && c <= 'f' {
        Some((c as nat - 'a' as nat + 10) as nat)
    } else if 'A' <= c && c <= 'F' {
        Some((c as nat - 'A' as nat + 10) as nat)
    } else {
        None
    }
}

/// The code of four hexadecimal digits.
pub open spec fn hex4(s: Seq<char>) -> Option<nat> {
    match (hex_value(s[0]), hex_value(s[1]), hex_value(s[2]), hex_value(s[3])) {
        (Some(a), Some(b), Some(c), Some(d)) => Some(((a * 16 + b) * 16 + c) * 16 + d),
        _ => None,
    }
}

/// The character that a one-letter escape stands for.
pub open spec fn short_escape(c: char) -> Option<char> {
    if c == '"' {
        Some('"')
    } else if c == '\\' {
        Some('\\')
    } else if c == '/' {
        Some('/')
    } else if c == 'b' {
        Some('\x08')
    } else if c == 'f' {
        Some('\x0c')
    } else if c == 'n' {
        Some('\n')
    } else if c == 'r' {
        Some('\r')
    } else if c == 't' {
        Some('\t')
    } else {
        None
    }
}

/// Whether the content `raw` of a JSON string reads as `word`, a word of characters below
/// U+D800 (each written as itself, as a one-letter escape or as a `\u` escape).
pub open spec fn decodes_to(raw: Seq<char>, word: Seq<char>) -> bool
    decreases raw.len(),
{
    if raw.len() == 0 {
        word.len() == 0
    } else if word.len() == 0 {
        false
    } else if raw[0] != '\\' {
        raw[0] == word[0] && decodes_to(raw.drop_first(), word.drop_first())
    } else if raw.len() >= 6 && raw[1] == 'u' && hex4(raw.subrange(2, 6)) == Some(word[0] as nat) {
        decodes_to(raw.subrange(6, raw.len() as int), word.drop_first())
    } else if raw.len() >= 2 && short_escape(raw[1]) == Some(word[0]) {
        decodes_to(raw.subrange(2, raw.len() as int), word.drop_first())
    } else {
        false
    }
}

/// Whether the spans in `v` are those of `spec_spans`, each within a text of length `n`.
pub open spec fn spans_match(v: Seq<(usize, usize)>, spec_spans: Seq<(int, int)>, n: int) -> bool {
    &&& v.len() == spec_spans.len()
    &&& forall|k: int|
        0 <= k < v.len() ==> (#[trigger] v[k]).0 as int == spec_spans[k].0 && v[k].1 as int == spec_spans[k].1
    &&& forall|k: int| 0 <= k < v.len() ==> (#[trigger] v[k]).0 <= v[k].1 <= n
}

/// The spans of the member names (their string contents) and of the member values of the
/// object that `text` holds, in order.
pub fn object_members(text: &str) -> (r: (Vec<(usize, usize)>, Vec<(usize, usize)>))
    ensures
        spans_match(r.0@, scan(text@).keys, text@.len() as int),
        spans_match(r.1@, scan(text@).values, text@.len() as int),
{
    let n = text.unicode_len();
    let mut depth: i128 = 0;
    let mut in_string = false;
    let mut escaped = false;
    let mut string_start: usize = 0;
    let mut string_top = false;
    let mut pending: Option<(usize, usize)> = None;
    let mut keys: Vec<(usize, usize)> = Vec::new();
    let mut value_open = false;
    let mut value_start: usize = 0;
    let mut values: Vec<(usize, usize)> = Vec::new();
    let mut i: usize = 0;
    while i < n
        invariant
            n == text@.len(),
            i <= n,
            -(i as int) <= depth <= i,
            string_start <= i,
            value_start <= i,
            pending matches Some(p) ==> p.0 <= p.1 <= i,
            ({
                let st = scan(text@.subrange(0, i as int));
                &&& st.depth == depth
                &&& st.in_string == in_string
                &&& st.escaped == escaped
                &&& st.string_start == string_start
                &&& st.string_top == string_top
                &&& st.pending == match pending {
                    Some(p) => Some((p.0 as int, p.1 as int)),
                    None => None::<(int, int)>,
                }
                &&& st.value_open == value_open
                &&& st.value_start == value_start
                &&& spans_match(keys@, st.keys, i as int)
                &&& spans_match(values@, st.values, i as int)
            }),
        decreases n - i,
    {
        proof {
            assert(text@.subrange(0, i + 1).drop_last() =~= text@.subrange(0, i as int));
        }
        let ghost before = scan(text@.subrange(0, i as int));
        let c = text.get_char(i);
        if in_string {
            if escaped {
                escaped = false;
            } else if c == '\\' {
                escaped = true;
            } else if c == '"' {
                in_string = false;
                pending = if string_top { Some((string_start, i)) } else { None };
            }
        } else if c == '"' {
            in_string = true;
            escaped = false;
            string_start = i + 1;
            string_top = depth == 1;
            pending = None;
        } else if c == ' ' || c == '\t' || c == '\n' || c == '\r' {
        } else if c == ':' {
            match pending {
                Some(p) => {
                    keys.push(p);
                    proof {
                        assert(scan(text@.subrange(0, i + 1)).keys =~= before.keys.push((p.0 as int, p.1 as int)));
                    }
                    pending = None;
                    value_open = true;
                    value_start = i + 1;
                },
                None => {},
            }
        } else if c == '{' || c == '[' {
            depth = depth + 1;
            pending = None;
        } else if (c == '}' || c == ',') && depth == 1 && value_open {
            values.push((value_start, i));
            proof {
                assert(scan(text@.subrange(0, i + 1)).values =~= before.values.push((value_start as int, i as int)));
            }
            if c == '}' {
                depth = depth - 1;
            }
            pending = None;
            value_open = false;
        } else if c == '}' || c == ']' {
            depth = depth - 1;
            pending = None;
        } else {
            pending = None;
        }
        i = i + 1;
    }
    assert(text@.subrange(0, n as int) =~= text@);
    (keys, values)
}

/// The value of a hexadecimal digit.
fn hex_digit(c: char) -> (r: Option<u32>)
    ensures
        match r {
            Some(v) => hex_value(c) == Some(v as nat),
            None => hex_value(c) is None,
        },
{
    let code = c as u32;
    if '0' <= c && c <= '9' {
        Some(code - 48)
    } else if 'a' <= c && c <= 'f' {
        Some(code - 87)
    } else if 'A' <= c && c <= 'F' {
        Some(code - 55)
    } else {
        None
    }
}

/// The character that a one-letter escape stands for.
fn short_escape_char(c: char) -> (r: Option<char>)
    ensures
        r == short_escape(c),
{
    if c == '"' {
        Some('"')
    } else if c == '\\' {
        Some('\\')
    } else if c == '/' {
        Some('/')
    } else if c == 'b' {
        Some('\x08')
    } else if c == 'f' {
        Some('\x0c')
    } else if c == 'n' {
        Some('\n')
    } else if c == 'r' {
        Some('\r')
    } else if c == 't' {
        Some('\t')
    } else {
        None
    }
}

/// Whether the text between `start` and `end` reads, as the content of a JSON string, as
/// `word`.
#[verifier::rlimit(40)]
pub fn span_decodes_to(text: &str, start: usize, end: usize, word: &str) -> (r: bool)
    requires
        start <= end <= text@.len(),
    ensures
        r == decodes_to(text@.subrange(start as int, end as int), word@),
{
    let m = word.unicode_len();
    let mut p: usize = start;
    let mut k: usize = 0;
    assert(word@.subrange(0, m as int) =~= word@);
    while p < end
        invariant
            start <= p <= end <= text@.len(),
            k <= m,
            m == word@.len(),
            decodes_to(text@.subrange(start as int, end as int), word@) == decodes_to(
                text@.subrange(p as int, end as int),
                word@.subrange(k as int, m as int),
            ),
        decreases end - p,
    {
        let ghost raw = text@.subrange(p as int, end as int);
        let ghost w = word@.subrange(k as int, m as int);
        if k == m {
            return false;
        }
        let wc = word.get_char(k);
        let c = text.get_char(p);
        assert(raw[0] == c && w[0] == wc);
        if c != '\\' {
            if c != wc {
                return false;
            }
            assert(raw.drop_first() =~= text@.subrange(p + 1, end as int));
            assert(w.drop_first() =~= word@.subrange(k + 1, m as int));
            p = p + 1;
            k = k + 1;
        } else {
            let mut matched = false;
            if end - p >= 6 && text.get_char(p + 1) == 'u' {
                let h0 = hex_digit(text.get_char(p + 2));
                let h1 = hex_digit(text.get_char(p + 3));
                let h2 = hex_digit(text.get_char(p + 4));
                let h3 = hex_digit(text.get_char(p + 5));
                assert(raw.subrange(2, 6) =~= text@.subrange(p + 2, p + 6));
                match (h0, h1, h2, h3) {
                    (Some(a), Some(b), Some(c2), Some(d)) => {
                        let code: u32 = ((a * 16 + b) * 16 + c2) * 16 + d;
                        if code == wc as u32 {
                            assert(raw.subrange(6, raw.len() as int) =~= text@.subrange(p + 6, end as int));
                            assert(w.drop_first() =~= word@.subrange(k + 1, m as int));
                            p = p + 6;
                            k = k + 1;
                            matched = true;
                        } else {
                            return false;
                        }
                    },
                    _ => {},
                }
            }
            if !matched {
                if end - p < 2 {
                    return false;
                }
                match short_escape_char(text.get_char(p + 1)) {
                    Some(e) => {
                        if e != wc {
                            return false;
                        }
                        assert(raw.subrange(2, raw.len() as int) =~= text@.subrange(p + 2, end as int));
                        assert(w.drop_first() =~= word@.subrange(k + 1, m as int));
                        p = p + 2;
                        k = k + 1;
                    },
                    None => {
                        return false;
                    },
                }
            }
        }
    }
    k == m
}

} // verus!

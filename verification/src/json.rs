//! The canonical JSON wire form of a Twirp error:
//! `{"code":"<snake>","msg":"<message>"[,"meta":{...}]}`, the `meta` member
//! omitted when the metadata is empty.
//!
//! Both directions are defined here from scratch as functions on character
//! sequences: serialization of an error value, and a parser for the JSON
//! bodies a peer may send. The parser accepts whitespace between tokens,
//! members in any order, and unknown members holding arbitrary JSON values;
//! it rejects duplicate members, unknown code tokens, control characters
//! inside strings, and Unicode escapes that denote surrogate halves.

use vstd::prelude::*;
use crate::error::{TwirpError, TwirpErrorCode};

verus! {

/// The lowercase hexadecimal digit for a value below 16.
pub open spec fn spec_hex_char(n: u32) -> char {
    if n == 0 { '0' } else if n == 1 { '1' } else if n == 2 { '2' } else if n == 3 { '3' }
    else if n == 4 { '4' } else if n == 5 { '5' } else if n == 6 { '6' } else if n == 7 { '7' }
    else if n == 8 { '8' } else if n == 9 { '9' } else if n == 10 { 'a' } else if n == 11 { 'b' }
    else if n == 12 { 'c' } else if n == 13 { 'd' } else if n == 14 { 'e' } else { 'f' }
}

/// How one character is written inside a JSON string: quotes, backslashes and
/// the named control characters get a two-character escape, other control
/// characters a `\u00XX` escape, everything else stands as itself.
pub open spec fn spec_escape_char(c: char) -> Seq<char> {
    if c == '"' { seq!['\\', '"'] }
    else if c == '\\' { seq!['\\', '\\'] }
    else if c == '\u{8}' { seq!['\\', 'b'] }
    else if c == '\u{c}' { seq!['\\', 'f'] }
    else if c == '\n' { seq!['\\', 'n'] }
    else if c == '\r' { seq!['\\', 'r'] }
    else if c == '\t' { seq!['\\', 't'] }
    else if (c as u32) < 32 {
        seq!['\\', 'u', '0', '0', spec_hex_char((c as u32) / 16), spec_hex_char((c as u32) % 16)]
    } else { seq![c] }
}

/// A string value written with each character escaped as needed.
pub open spec fn spec_escape(s: Seq<char>) -> Seq<char>
    decreases s.len(),
{
    if s.len() == 0 {
        Seq::empty()
    } else {
        spec_escape_char(s[0]) + spec_escape(s.drop_first())
    }
}

/// A string value written as a JSON string, quotes included.
pub open spec fn spec_quoted(s: Seq<char>) -> Seq<char> {
    seq!['"'] + spec_escape(s) + seq!['"']
}

/// The snake-case token of an error code, as it stands on the wire.
pub open spec fn spec_code_token(code: TwirpErrorCode) -> Seq<char> {
    match code {
        TwirpErrorCode::Canceled => seq!['c', 'a', 'n', 'c', 'e', 'l', 'e', 'd'],
        TwirpErrorCode::Unknown => seq!['u', 'n', 'k', 'n', 'o', 'w', 'n'],
        TwirpErrorCode::InvalidArgument => seq![
            'i', 'n', 'v', 'a', 'l', 'i', 'd', '_', 'a', 'r', 'g', 'u', 'm', 'e', 'n', 't',
        ],
        TwirpErrorCode::Malformed => seq!['m', 'a', 'l', 'f', 'o', 'r', 'm', 'e', 'd'],
        TwirpErrorCode::DeadlineExceeded => seq![
            'd', 'e', 'a', 'd', 'l', 'i', 'n', 'e', '_', 'e', 'x', 'c', 'e', 'e', 'd', 'e', 'd',
        ],
        TwirpErrorCode::NotFound => seq!['n', 'o', 't', '_', 'f', 'o', 'u', 'n', 'd'],
        TwirpErrorCode::BadRoute => seq!['b', 'a', 'd', '_', 'r', 'o', 'u', 't', 'e'],
        TwirpErrorCode::AlreadyExists => seq![
            'a', 'l', 'r', 'e', 'a', 'd', 'y', '_', 'e', 'x', 'i', 's', 't', 's',
        ],
        TwirpErrorCode::PermissionDenied => seq![
            'p', 'e', 'r', 'm', 'i', 's', 's', 'i', 'o', 'n', '_', 'd', 'e', 'n', 'i', 'e', 'd',
        ],
        TwirpErrorCode::Unauthenticated => seq![
            'u', 'n', 'a', 'u', 't', 'h', 'e', 'n', 't', 'i', 'c', 'a', 't', 'e', 'd',
        ],
        TwirpErrorCode::ResourceExhausted => seq![
            'r', 'e', 's', 'o', 'u', 'r', 'c', 'e', '_', 'e', 'x', 'h', 'a', 'u', 's', 't', 'e',
            'd',
        ],
        TwirpErrorCode::FailedPrecondition => seq![
            'f', 'a', 'i', 'l', 'e', 'd', '_', 'p', 'r', 'e', 'c', 'o', 'n', 'd', 'i', 't', 'i',
            'o', 'n',
        ],
        TwirpErrorCode::Aborted => seq!['a', 'b', 'o', 'r', 't', 'e', 'd'],
        TwirpErrorCode::OutOfRange => seq![
            'o', 'u', 't', '_', 'o', 'f', '_', 'r', 'a', 'n', 'g', 'e',
        ],
        TwirpErrorCode::Unimplemented => seq![
            'u', 'n', 'i', 'm', 'p', 'l', 'e', 'm', 'e', 'n', 't', 'e', 'd',
        ],
        TwirpErrorCode::Internal => seq!['i', 'n', 't', 'e', 'r', 'n', 'a', 'l'],
        TwirpErrorCode::Unavailable => seq![
            'u', 'n', 'a', 'v', 'a', 'i', 'l', 'a', 'b', 'l', 'e',
        ],
        TwirpErrorCode::Dataloss => seq!['d', 'a', 't', 'a', 'l', 'o', 's', 's'],
    }
}

/// The metadata members, comma-separated, each `"key":"value"` escaped.
pub open spec fn spec_meta_members(meta: Seq<(Seq<char>, Seq<char>)>) -> Seq<char>
    decreases meta.len(),
{
    if meta.len() == 0 {
        Seq::empty()
    } else {
        let head = spec_quoted(meta[0].0) + seq![':'] + spec_quoted(meta[0].1);
        if meta.len() == 1 {
            head
        } else {
            head + seq![','] + spec_meta_members(meta.drop_first())
        }
    }
}

/// The leading characters of the serialized error: `{"code":"`.
pub open spec fn spec_json_head() -> Seq<char> {
    seq!['{', '"', 'c', 'o', 'd', 'e', '"', ':', '"']
}

/// The characters between the code token and the message: `","msg":`.
pub open spec fn spec_json_msg_key() -> Seq<char> {
    seq!['"', ',', '"', 'm', 's', 'g', '"', ':']
}

/// The characters introducing the metadata member: `,"meta":{`.
pub open spec fn spec_json_meta_key() -> Seq<char> {
    seq![',', '"', 'm', 'e', 't', 'a', '"', ':', '{']
}

/// The canonical JSON serialization of an error value.
pub open spec fn spec_error_json(v: crate::error::TwirpErrorView) -> Seq<char> {
    spec_json_head() + spec_code_token(v.code) + spec_json_msg_key() + spec_quoted(v.msg) + (
    if v.meta.len() == 0 {
        Seq::<char>::empty()
    } else {
        spec_json_meta_key() + spec_meta_members(v.meta) + seq!['}']
    }) + seq!['}']
}

/// The lowercase hexadecimal digit of a value below 16.
fn hex_char(n: u32) -> (r: char)
    requires
        n < 16,
    ensures
        r == spec_hex_char(n),
{
    if n == 0 { '0' } else if n == 1 { '1' } else if n == 2 { '2' } else if n == 3 { '3' }
    else if n == 4 { '4' } else if n == 5 { '5' } else if n == 6 { '6' } else if n == 7 { '7' }
    else if n == 8 { '8' } else if n == 9 { '9' } else if n == 10 { 'a' } else if n == 11 { 'b' }
    else if n == 12 { 'c' } else if n == 13 { 'd' } else if n == 14 { 'e' } else { 'f' }
}

/// Appends one character in its escaped form.
fn push_escaped_char(out: &mut Vec<char>, c: char)
    ensures
        final(out)@ == old(out)@ + spec_escape_char(c),
{
    if c == '"' {
        out.push('\\');
        out.push('"');
    } else if c == '\\' {
        out.push('\\');
        out.push('\\');
    } else if c == '\u{8}' {
        out.push('\\');
        out.push('b');
    } else if c == '\u{c}' {
        out.push('\\');
        out.push('f');
    } else if c == '\n' {
        out.push('\\');
        out.push('n');
    } else if c == '\r' {
        out.push('\\');
        out.push('r');
    } else if c == '\t' {
        out.push('\\');
        out.push('t');
    } else if (c as u32) < 32 {
        out.push('\\');
        out.push('u');
        out.push('0');
        out.push('0');
        out.push(hex_char((c as u32) / 16));
        out.push(hex_char((c as u32) % 16));
    } else {
        out.push(c);
    }
    proof {
        assert(out@ =~= old(out)@ + spec_escape_char(c));
    }
}

/// Escaping a string one character more extends the escaped form.
proof fn lemma_escape_snoc(s: Seq<char>, c: char)
    ensures
        spec_escape(s.push(c)) == spec_escape(s) + spec_escape_char(c),
    decreases s.len(),
{
    if s.len() == 0 {
        assert(s.push(c)[0] == c);
        assert(s.push(c).drop_first() =~= Seq::<char>::empty());
        assert(spec_escape(s.push(c)) =~= spec_escape_char(c) + spec_escape(
            Seq::<char>::empty(),
        ));
        assert(spec_escape(s.push(c)) =~= spec_escape(s) + spec_escape_char(c));
    } else {
        assert(s.push(c)[0] == s[0]);
        assert(s.push(c).drop_first() =~= s.drop_first().push(c));
        lemma_escape_snoc(s.drop_first(), c);
        assert(spec_escape(s.push(c)) =~= spec_escape_char(s[0]) + (spec_escape(s.drop_first())
            + spec_escape_char(c)));
        assert(spec_escape(s.push(c)) =~= spec_escape(s) + spec_escape_char(c));
    }
}

/// Appends a string in its escaped form, quotes not included.
fn push_escaped_str(out: &mut Vec<char>, s: &str)
    ensures
        final(out)@ == old(out)@ + spec_escape(s@),
{
    let n = s.unicode_len();
    let mut i: usize = 0;
    while i < n
        invariant
            n == s@.len(),
            i <= n,
            out@ == old(out)@ + spec_escape(s@.subrange(0, i as int)),
        decreases n - i,
    {
        push_escaped_char(out, s.get_char(i));
        proof {
            assert(s@.subrange(0, i + 1).drop_last() =~= s@.subrange(0, i as int));
            assert(s@.subrange(0, i + 1) =~= s@.subrange(0, i as int).push(s@[i as int]));
            lemma_escape_snoc(s@.subrange(0, i as int), s@[i as int]);
        }
        i += 1;
    }
    proof {
        assert(s@.subrange(0, s@.len() as int) =~= s@);
    }
}

/// The snake-case wire token of an error code.
pub fn code_token(code: TwirpErrorCode) -> (r: &'static str)
    ensures
        r@ == spec_code_token(code),
{
    match code {
        TwirpErrorCode::Canceled => {
            proof {
                reveal_strlit("canceled");
                assert("canceled"@ =~= spec_code_token(TwirpErrorCode::Canceled));
            }
            "canceled"
        },
        TwirpErrorCode::Unknown => {
            proof {
                reveal_strlit("unknown");
                assert("unknown"@ =~= spec_code_token(TwirpErrorCode::Unknown));
            }
            "unknown"
        },
        TwirpErrorCode::InvalidArgument => {
            proof {
                reveal_strlit("invalid_argument");
                assert("invalid_argument"@ =~= spec_code_token(TwirpErrorCode::InvalidArgument));
            }
            "invalid_argument"
        },
        TwirpErrorCode::Malformed => {
            proof {
                reveal_strlit("malformed");
                assert("malformed"@ =~= spec_code_token(TwirpErrorCode::Malformed));
            }
            "malformed"
        },
        TwirpErrorCode::DeadlineExceeded => {
            proof {
                reveal_strlit("deadline_exceeded");
                assert("deadline_exceeded"@ =~= spec_code_token(TwirpErrorCode::DeadlineExceeded));
            }
            "deadline_exceeded"
        },
        TwirpErrorCode::NotFound => {
            proof {
                reveal_strlit("not_found");
                assert("not_found"@ =~= spec_code_token(TwirpErrorCode::NotFound));
            }
            "not_found"
        },
        TwirpErrorCode::BadRoute => {
            proof {
                reveal_strlit("bad_route");
                assert("bad_route"@ =~= spec_code_token(TwirpErrorCode::BadRoute));
            }
            "bad_route"
        },
        TwirpErrorCode::AlreadyExists => {
            proof {
                reveal_strlit("already_exists");
                assert("already_exists"@ =~= spec_code_token(TwirpErrorCode::AlreadyExists));
            }
            "already_exists"
        },
        TwirpErrorCode::PermissionDenied => {
            proof {
                reveal_strlit("permission_denied");
                assert("permission_denied"@ =~= spec_code_token(TwirpErrorCode::PermissionDenied));
            }
            "permission_denied"
        },
        TwirpErrorCode::Unauthenticated => {
            proof {
                reveal_strlit("unauthenticated");
                assert("unauthenticated"@ =~= spec_code_token(TwirpErrorCode::Unauthenticated));
            }
            "unauthenticated"
        },
        TwirpErrorCode::ResourceExhausted => {
            proof {
                reveal_strlit("resource_exhausted");
                assert("resource_exhausted"@ =~= spec_code_token(
                    TwirpErrorCode::ResourceExhausted,
                ));
            }
            "resource_exhausted"
        },
        TwirpErrorCode::FailedPrecondition => {
            proof {
                reveal_strlit("failed_precondition");
                assert("failed_precondition"@ =~= spec_code_token(
                    TwirpErrorCode::FailedPrecondition,
                ));
            }
            "failed_precondition"
        },
        TwirpErrorCode::Aborted => {
            proof {
                reveal_strlit("aborted");
                assert("aborted"@ =~= spec_code_token(TwirpErrorCode::Aborted));
            }
            "aborted"
        },
        TwirpErrorCode::OutOfRange => {
            proof {
                reveal_strlit("out_of_range");
                assert("out_of_range"@ =~= spec_code_token(TwirpErrorCode::OutOfRange));
            }
            "out_of_range"
        },
        TwirpErrorCode::Unimplemented => {
            proof {
                reveal_strlit("unimplemented");
                assert("unimplemented"@ =~= spec_code_token(TwirpErrorCode::Unimplemented));
            }
            "unimplemented"
        },
        TwirpErrorCode::Internal => {
            proof {
                reveal_strlit("internal");
                assert("internal"@ =~= spec_code_token(TwirpErrorCode::Internal));
            }
            "internal"
        },
        TwirpErrorCode::Unavailable => {
            proof {
                reveal_strlit("unavailable");
                assert("unavailable"@ =~= spec_code_token(TwirpErrorCode::Unavailable));
            }
            "unavailable"
        },
        TwirpErrorCode::Dataloss => {
            proof {
                reveal_strlit("dataloss");
                assert("dataloss"@ =~= spec_code_token(TwirpErrorCode::Dataloss));
            }
            "dataloss"
        },
    }
}

/// Serializes an error to its canonical JSON wire form.
#[verifier::rlimit(50)]
pub fn error_to_json(e: &TwirpError) -> (r: String)
    ensures
        r@ == spec_error_json(e@),
{
    let mut out: Vec<char> = Vec::new();
    crate::text::append_str_chars(&mut out, "{\"code\":\"");
    proof {
        reveal_strlit("{\"code\":\"");
        assert("{\"code\":\""@ =~= spec_json_head());
    }
    crate::text::append_str_chars(&mut out, code_token(e.code));
    crate::text::append_str_chars(&mut out, "\",\"msg\":");
    proof {
        reveal_strlit("\",\"msg\":");
        assert("\",\"msg\":"@ =~= spec_json_msg_key());
    }
    out.push('"');
    push_escaped_str(&mut out, e.msg.as_str());
    out.push('"');
    proof {
        assert(out@ =~= spec_json_head() + spec_code_token(e@.code) + spec_json_msg_key()
            + spec_quoted(e@.msg));
    }
    if e.meta.len() > 0 {
        crate::text::append_str_chars(&mut out, ",\"meta\":{");
        proof {
            reveal_strlit(",\"meta\":{");
            assert(",\"meta\":{"@ =~= spec_json_meta_key());
        }
        let n = e.meta.len();
        let mut i: usize = 0;
        while i < n
            invariant
                n == e.meta.len(),
                0 < n == e@.meta.len(),
                i <= n,
                out@ == spec_json_head() + spec_code_token(e@.code) + spec_json_msg_key()
                    + spec_quoted(e@.msg) + spec_json_meta_key() + spec_meta_members(
                    e@.meta.subrange(0, i as int),
                ) + (if 0 < i < n {
                    seq![',']
                } else {
                    Seq::<char>::empty()
                }),
            decreases n - i,
        {
            let pair = &e.meta[i];
            out.push('"');
            push_escaped_str(&mut out, pair.0.as_str());
            out.push('"');
            out.push(':');
            out.push('"');
            push_escaped_str(&mut out, pair.1.as_str());
            out.push('"');
            if i + 1 < n {
                out.push(',');
            }
            proof {
                lemma_meta_members_snoc(e@.meta.subrange(0, i as int), e@.meta[i as int]);
                assert(e@.meta.subrange(0, i + 1).drop_last() =~= e@.meta.subrange(0, i as int));
                assert(e@.meta.subrange(0, i + 1) =~= e@.meta.subrange(0, i as int).push(
                    e@.meta[i as int],
                ));
                assert(out@ =~= spec_json_head() + spec_code_token(e@.code) + spec_json_msg_key()
                    + spec_quoted(e@.msg) + spec_json_meta_key() + spec_meta_members(
                    e@.meta.subrange(0, i + 1),
                ) + (if i + 1 < n {
                    seq![',']
                } else {
                    Seq::<char>::empty()
                }));
            }
            i += 1;
        }
        out.push('}');
        proof {
            assert(e@.meta.subrange(0, e@.meta.len() as int) =~= e@.meta);
        }
    }
    out.push('}');
    proof {
        assert(out@ =~= spec_error_json(e@));
    }
    crate::text::string_from_chars(&out)
}

// ---------------------------------------------------------------------------
// Parsing. The specification functions below each take the remaining input
// and return what they recognize together with the input left after it.
// ---------------------------------------------------------------------------

/// JSON whitespace.
pub open spec fn spec_is_ws(c: char) -> bool {
    c == ' ' || c == '\t' || c == '\n' || c == '\r'
}

/// The input with leading whitespace removed.
pub open spec fn spec_skip_ws(s: Seq<char>) -> Seq<char>
    decreases s.len(),
{
    if s.len() > 0 && spec_is_ws(s[0]) {
        spec_skip_ws(s.drop_first())
    } else {
        s
    }
}

/// Skipping whitespace never lengthens the input.
pub proof fn lemma_skip_ws_len(s: Seq<char>)
    ensures
        spec_skip_ws(s).len() <= s.len(),
    decreases s.len(),
{
    if s.len() > 0 && spec_is_ws(s[0]) {
        lemma_skip_ws_len(s.drop_first());
    }
}

/// The character an escape letter stands for, `\u` aside.
pub open spec fn spec_unescape_char(e: char) -> Option<char> {
    if e == '"' { Some('"') }
    else if e == '\\' { Some('\\') }
    else if e == '/' { Some('/') }
    else if e == 'b' { Some('\u{8}') }
    else if e == 'f' { Some('\u{c}') }
    else if e == 'n' { Some('\n') }
    else if e == 'r' { Some('\r') }
    else if e == 't' { Some('\t') }
    else { None }
}

/// The value of a hexadecimal digit.
pub open spec fn spec_hex_val(c: char) -> Option<u32> {
    let n = c as u32;
    if 48 <= n <= 57 {
        Some((n - 48) as u32)
    } else if 97 <= n <= 102 {
        Some((n - 87) as u32)
    } else if 65 <= n <= 70 {
        Some((n - 55) as u32)
    } else {
        None
    }
}

/// The code point of four hexadecimal digits.
pub open spec fn spec_hex4(a: char, b: char, c: char, d: char) -> Option<u32> {
    match (spec_hex_val(a), spec_hex_val(b), spec_hex_val(c), spec_hex_val(d)) {
        (Some(va), Some(vb), Some(vc), Some(vd)) => Some(
            (va * 4096 + vb * 256 + vc * 16 + vd) as u32,
        ),
        _ => None,
    }
}

/// Parses the inside of a JSON string, the opening quote already consumed:
/// the decoded characters and the input after the closing quote. Control
/// characters must be escaped; a `\u` escape in the surrogate range is
/// rejected.
pub open spec fn spec_parse_string_body(s: Seq<char>) -> Option<(Seq<char>, Seq<char>)>
    decreases s.len(),
{
    if s.len() == 0 {
        None
    } else if s[0] == '"' {
        Some((Seq::empty(), s.drop_first()))
    } else if s[0] == '\\' {
        if s.len() < 2 {
            None
        } else if s[1] == 'u' {
            if s.len() < 6 {
                None
            } else {
                match spec_hex4(s[2], s[3], s[4], s[5]) {
                    Some(cp) => if 0xD800 <= cp < 0xE000 {
                        None
                    } else {
                        match spec_parse_string_body(s.skip(6)) {
                            Some((rest, rem)) => Some((seq![cp as char] + rest, rem)),
                            None => None,
                        }
                    },
                    None => None,
                }
            }
        } else {
            match spec_unescape_char(s[1]) {
                Some(c) => match spec_parse_string_body(s.skip(2)) {
                    Some((rest, rem)) => Some((seq![c] + rest, rem)),
                    None => None,
                },
                None => None,
            }
        }
    } else if (s[0] as u32) < 32 {
        None
    } else {
        match spec_parse_string_body(s.drop_first()) {
            Some((rest, rem)) => Some((seq![s[0]] + rest, rem)),
            None => None,
        }
    }
}

/// Parses a JSON string, quotes included.
pub open spec fn spec_parse_string(s: Seq<char>) -> Option<(Seq<char>, Seq<char>)> {
    if s.len() > 0 && s[0] == '"' {
        spec_parse_string_body(s.drop_first())
    } else {
        None
    }
}

/// A parsed string leaves strictly less input.
pub proof fn lemma_parse_string_body_len(s: Seq<char>)
    ensures
        spec_parse_string_body(s) matches Some(p) ==> p.1.len() < s.len(),
    decreases s.len(),
{
    if s.len() > 0 {
        lemma_parse_string_body_len(s.drop_first());
        if s.len() >= 2 {
            lemma_parse_string_body_len(s.skip(2));
        }
        if s.len() >= 6 {
            lemma_parse_string_body_len(s.skip(6));
        }
    }
}

/// A parsed string, quotes included, leaves strictly less input.
pub proof fn lemma_parse_string_len(s: Seq<char>)
    ensures
        spec_parse_string(s) matches Some(p) ==> p.1.len() < s.len(),
{
    if s.len() > 0 && s[0] == '"' {
        lemma_parse_string_body_len(s.drop_first());
    }
}

/// Skips the rest of a string without decoding it, lenient about escape
/// contents: the input after the closing quote.
pub open spec fn spec_skip_string_raw(s: Seq<char>) -> Option<Seq<char>>
    decreases s.len(),
{
    if s.len() == 0 {
        None
    } else if s[0] == '"' {
        Some(s.drop_first())
    } else if s[0] == '\\' {
        if s.len() < 2 {
            None
        } else {
            spec_skip_string_raw(s.skip(2))
        }
    } else {
        spec_skip_string_raw(s.drop_first())
    }
}

/// A skipped string leaves strictly less input.
pub proof fn lemma_skip_string_raw_len(s: Seq<char>)
    ensures
        spec_skip_string_raw(s) matches Some(rem) ==> rem.len() < s.len(),
    decreases s.len(),
{
    if s.len() > 0 {
        lemma_skip_string_raw_len(s.drop_first());
        if s.len() >= 2 {
            lemma_skip_string_raw_len(s.skip(2));
        }
    }
}

/// Skips to the end of a composite value by tracking bracket depth, strings
/// scanned but not decoded: the input after the bracket that closes depth 1.
/// Bracket kinds are not matched against each other.
pub open spec fn spec_skip_composite(s: Seq<char>, depth: nat) -> Option<Seq<char>>
    decreases s.len(),
    via spec_skip_composite_dec
{
    if s.len() == 0 {
        None
    } else if s[0] == '"' {
        match spec_skip_string_raw(s.drop_first()) {
            Some(rem) => spec_skip_composite(rem, depth),
            None => None,
        }
    } else if s[0] == '{' || s[0] == '[' {
        spec_skip_composite(s.drop_first(), depth + 1)
    } else if s[0] == '}' || s[0] == ']' {
        if depth == 1 {
            Some(s.drop_first())
        } else if depth == 0 {
            None
        } else {
            spec_skip_composite(s.drop_first(), (depth - 1) as nat)
        }
    } else {
        spec_skip_composite(s.drop_first(), depth)
    }
}

#[via_fn]
proof fn spec_skip_composite_dec(s: Seq<char>, depth: nat) {
    if s.len() > 0 && s[0] == '"' {
        lemma_skip_string_raw_len(s.drop_first());
    }
}

/// A skipped composite leaves strictly less input.
pub proof fn lemma_skip_composite_len(s: Seq<char>, depth: nat)
    ensures
        spec_skip_composite(s, depth) matches Some(rem) ==> rem.len() < s.len(),
    decreases s.len(),
{
    if s.len() > 0 {
        if s[0] == '"' {
            lemma_skip_string_raw_len(s.drop_first());
            match spec_skip_string_raw(s.drop_first()) {
                Some(rem) => lemma_skip_composite_len(rem, depth),
                None => {},
            }
        } else if s[0] == '{' || s[0] == '[' {
            lemma_skip_composite_len(s.drop_first(), depth + 1);
        } else if s[0] == '}' || s[0] == ']' {
            if depth > 1 {
                lemma_skip_composite_len(s.drop_first(), (depth - 1) as nat);
            }
        } else {
            lemma_skip_composite_len(s.drop_first(), depth);
        }
    }
}

/// Whether a character can stand in a JSON number. The run is not checked
/// for number syntax: a skipped number is taken leniently.
pub open spec fn spec_is_number_char(c: char) -> bool {
    ('0' <= c && c <= '9') || c == '-' || c == '+' || c == '.' || c == 'e' || c == 'E'
}

/// The input after a run of number characters.
pub open spec fn spec_skip_number(s: Seq<char>) -> Seq<char>
    decreases s.len(),
{
    if s.len() > 0 && spec_is_number_char(s[0]) {
        spec_skip_number(s.drop_first())
    } else {
        s
    }
}

/// Skipping a number never lengthens the input.
pub proof fn lemma_skip_number_len(s: Seq<char>)
    ensures
        spec_skip_number(s).len() <= s.len(),
    decreases s.len(),
{
    if s.len() > 0 && spec_is_number_char(s[0]) {
        lemma_skip_number_len(s.drop_first());
    }
}

/// Skips one JSON value of any kind: the input after it.
pub open spec fn spec_skip_value(s: Seq<char>) -> Option<Seq<char>> {
    if s.len() == 0 {
        None
    } else if s[0] == '"' {
        spec_skip_string_raw(s.drop_first())
    } else if s[0] == '{' || s[0] == '[' {
        spec_skip_composite(s, 0)
    } else if s[0] == 't' {
        if s.len() >= 4 && s[1] == 'r' && s[2] == 'u' && s[3] == 'e' {
            Some(s.skip(4))
        } else {
            None
        }
    } else if s[0] == 'f' {
        if s.len() >= 5 && s[1] == 'a' && s[2] == 'l' && s[3] == 's' && s[4] == 'e' {
            Some(s.skip(5))
        } else {
            None
        }
    } else if s[0] == 'n' {
        if s.len() >= 4 && s[1] == 'u' && s[2] == 'l' && s[3] == 'l' {
            Some(s.skip(4))
        } else {
            None
        }
    } else if s[0] == '-' || ('0' <= s[0] && s[0] <= '9') {
        Some(spec_skip_number(s.drop_first()))
    } else {
        None
    }
}

/// A skipped value leaves strictly less input.
pub proof fn lemma_skip_value_len(s: Seq<char>)
    ensures
        spec_skip_value(s) matches Some(rem) ==> rem.len() < s.len(),
{
    if s.len() > 0 {
        if s[0] == '"' {
            lemma_skip_string_raw_len(s.drop_first());
        } else if s[0] == '{' || s[0] == '[' {
            lemma_skip_composite_len(s, 0);
        } else if s[0] == '-' || ('0' <= s[0] && s[0] <= '9') {
            lemma_skip_number_len(s.drop_first());
        }
    }
}

/// The error code a wire token stands for, if any.
pub open spec fn spec_code_of_token(t: Seq<char>) -> Option<TwirpErrorCode> {
    if t == spec_code_token(TwirpErrorCode::Canceled) { Some(TwirpErrorCode::Canceled) }
    else if t == spec_code_token(TwirpErrorCode::Unknown) { Some(TwirpErrorCode::Unknown) }
    else if t == spec_code_token(TwirpErrorCode::InvalidArgument) { Some(TwirpErrorCode::InvalidArgument) }
    else if t == spec_code_token(TwirpErrorCode::Malformed) { Some(TwirpErrorCode::Malformed) }
    else if t == spec_code_token(TwirpErrorCode::DeadlineExceeded) { Some(TwirpErrorCode::DeadlineExceeded) }
    else if t == spec_code_token(TwirpErrorCode::NotFound) { Some(TwirpErrorCode::NotFound) }
    else if t == spec_code_token(TwirpErrorCode::BadRoute) { Some(TwirpErrorCode::BadRoute) }
    else if t == spec_code_token(TwirpErrorCode::AlreadyExists) { Some(TwirpErrorCode::AlreadyExists) }
    else if t == spec_code_token(TwirpErrorCode::PermissionDenied) { Some(TwirpErrorCode::PermissionDenied) }
    else if t == spec_code_token(TwirpErrorCode::Unauthenticated) { Some(TwirpErrorCode::Unauthenticated) }
    else if t == spec_code_token(TwirpErrorCode::ResourceExhausted) { Some(TwirpErrorCode::ResourceExhausted) }
    else if t == spec_code_token(TwirpErrorCode::FailedPrecondition) { Some(TwirpErrorCode::FailedPrecondition) }
    else if t == spec_code_token(TwirpErrorCode::Aborted) { Some(TwirpErrorCode::Aborted) }
    else if t == spec_code_token(TwirpErrorCode::OutOfRange) { Some(TwirpErrorCode::OutOfRange) }
    else if t == spec_code_token(TwirpErrorCode::Unimplemented) { Some(TwirpErrorCode::Unimplemented) }
    else if t == spec_code_token(TwirpErrorCode::Internal) { Some(TwirpErrorCode::Internal) }
    else if t == spec_code_token(TwirpErrorCode::Unavailable) { Some(TwirpErrorCode::Unavailable) }
    else if t == spec_code_token(TwirpErrorCode::Dataloss) { Some(TwirpErrorCode::Dataloss) }
    else { None }
}

/// The member names the parser interprets.
pub open spec fn spec_key_code() -> Seq<char> {
    seq!['c', 'o', 'd', 'e']
}

/// The `msg` member name.
pub open spec fn spec_key_msg() -> Seq<char> {
    seq!['m', 's', 'g']
}

/// The `meta` member name.
pub open spec fn spec_key_meta() -> Seq<char> {
    seq!['m', 'e', 't', 'a']
}

/// Parses the members of the `meta` object, the opening brace and leading
/// whitespace already consumed: the accumulated pairs (a repeated key takes
/// the last value, keeping the key's first position) and the input after the
/// closing brace.
pub open spec fn spec_parse_meta_members(
    s: Seq<char>,
    allow_end: bool,
    acc: Seq<(Seq<char>, Seq<char>)>,
) -> Option<(Seq<(Seq<char>, Seq<char>)>, Seq<char>)>
    decreases s.len(),
    via spec_parse_meta_members_dec
{
    if s.len() == 0 {
        None
    } else if allow_end && s[0] == '}' {
        Some((acc, s.drop_first()))
    } else {
        match spec_parse_string(s) {
            None => None,
            Some((k, r1)) => {
                let r2 = spec_skip_ws(r1);
                if r2.len() == 0 || r2[0] != ':' {
                    None
                } else {
                    let r3 = spec_skip_ws(r2.drop_first());
                    match spec_parse_string(r3) {
                        None => None,
                        Some((v, r4)) => {
                            let acc2 = crate::error::spec_meta_insert(acc, k, v);
                            let r5 = spec_skip_ws(r4);
                            if r5.len() == 0 {
                                None
                            } else if r5[0] == ',' {
                                spec_parse_meta_members(
                                    spec_skip_ws(r5.drop_first()),
                                    false,
                                    acc2,
                                )
                            } else if r5[0] == '}' {
                                Some((acc2, r5.drop_first()))
                            } else {
                                None
                            }
                        },
                    }
                }
            },
        }
    }
}

#[via_fn]
proof fn spec_parse_meta_members_dec(
    s: Seq<char>,
    allow_end: bool,
    acc: Seq<(Seq<char>, Seq<char>)>,
) {
    lemma_parse_string_len(s);
    if s.len() > 0 && !(allow_end && s[0] == '}') {
        match spec_parse_string(s) {
            None => {},
            Some((k, r1)) => {
                lemma_skip_ws_len(r1);
                let r2 = spec_skip_ws(r1);
                if r2.len() > 0 && r2[0] == ':' {
                    lemma_skip_ws_len(r2.drop_first());
                    let r3 = spec_skip_ws(r2.drop_first());
                    lemma_parse_string_len(r3);
                    match spec_parse_string(r3) {
                        None => {},
                        Some((v, r4)) => {
                            lemma_skip_ws_len(r4);
                            let r5 = spec_skip_ws(r4);
                            if r5.len() > 0 && r5[0] == ',' {
                                lemma_skip_ws_len(r5.drop_first());
                            }
                        },
                    }
                }
            },
        }
    }
}

/// Parsed meta members leave strictly less input.
pub proof fn lemma_parse_meta_members_len(
    s: Seq<char>,
    allow_end: bool,
    acc: Seq<(Seq<char>, Seq<char>)>,
)
    ensures
        spec_parse_meta_members(s, allow_end, acc) matches Some(p) ==> p.1.len() < s.len(),
    decreases s.len(),
{
    lemma_parse_string_len(s);
    if s.len() > 0 && !(allow_end && s[0] == '}') {
        match spec_parse_string(s) {
            None => {},
            Some((k, r1)) => {
                lemma_skip_ws_len(r1);
                let r2 = spec_skip_ws(r1);
                if r2.len() > 0 && r2[0] == ':' {
                    lemma_skip_ws_len(r2.drop_first());
                    let r3 = spec_skip_ws(r2.drop_first());
                    lemma_parse_string_len(r3);
                    match spec_parse_string(r3) {
                        None => {},
                        Some((v, r4)) => {
                            lemma_skip_ws_len(r4);
                            let r5 = spec_skip_ws(r4);
                            if r5.len() > 0 && r5[0] == ',' {
                                lemma_skip_ws_len(r5.drop_first());
                                lemma_parse_meta_members_len(
                                    spec_skip_ws(r5.drop_first()),
                                    false,
                                    crate::error::spec_meta_insert(acc, k, v),
                                );
                            }
                        },
                    }
                }
            },
        }
    }
}

/// Parsed meta members keep the keys unique.
pub proof fn lemma_parse_meta_members_wf(
    s: Seq<char>,
    allow_end: bool,
    acc: Seq<(Seq<char>, Seq<char>)>,
)
    requires
        crate::error::wf_meta(acc),
    ensures
        spec_parse_meta_members(s, allow_end, acc) matches Some(p) ==> crate::error::wf_meta(p.0),
    decreases s.len(),
{
    lemma_parse_string_len(s);
    if s.len() > 0 && !(allow_end && s[0] == '}') {
        match spec_parse_string(s) {
            None => {},
            Some((k, r1)) => {
                lemma_skip_ws_len(r1);
                let r2 = spec_skip_ws(r1);
                if r2.len() > 0 && r2[0] == ':' {
                    lemma_skip_ws_len(r2.drop_first());
                    let r3 = spec_skip_ws(r2.drop_first());
                    lemma_parse_string_len(r3);
                    match spec_parse_string(r3) {
                        None => {},
                        Some((v, r4)) => {
                            crate::error::lemma_meta_insert_wf(acc, k, v);
                            lemma_skip_ws_len(r4);
                            let r5 = spec_skip_ws(r4);
                            if r5.len() > 0 && r5[0] == ',' {
                                lemma_skip_ws_len(r5.drop_first());
                                lemma_parse_meta_members_wf(
                                    spec_skip_ws(r5.drop_first()),
                                    false,
                                    crate::error::spec_meta_insert(acc, k, v),
                                );
                            }
                        },
                    }
                }
            },
        }
    }
}

/// The fields gathered while parsing an error object.
pub ghost struct ErrAccView {
    pub code: Option<TwirpErrorCode>,
    pub msg: Option<Seq<char>>,
    pub meta: Option<Seq<(Seq<char>, Seq<char>)>>,
}

/// Parses the value of one member of the error object, the key and colon
/// already consumed. A duplicate member or an unknown code token is an
/// error; an unknown member's value is skipped.
pub open spec fn spec_member_value(key: Seq<char>, s: Seq<char>, acc: ErrAccView) -> Option<
    (ErrAccView, Seq<char>),
> {
    if key == spec_key_code() {
        if acc.code is Some {
            None
        } else {
            match spec_parse_string(s) {
                Some((tok, r)) => match spec_code_of_token(tok) {
                    Some(c) => Some((ErrAccView { code: Some(c), ..acc }, r)),
                    None => None,
                },
                None => None,
            }
        }
    } else if key == spec_key_msg() {
        if acc.msg is Some {
            None
        } else {
            match spec_parse_string(s) {
                Some((m, r)) => Some((ErrAccView { msg: Some(m), ..acc }, r)),
                None => None,
            }
        }
    } else if key == spec_key_meta() {
        if acc.meta is Some {
            None
        } else if s.len() == 0 || s[0] != '{' {
            None
        } else {
            match spec_parse_meta_members(spec_skip_ws(s.drop_first()), true, Seq::empty()) {
                Some((mm, r)) => Some((ErrAccView { meta: Some(mm), ..acc }, r)),
                None => None,
            }
        }
    } else {
        match spec_skip_value(s) {
            Some(r) => Some((acc, r)),
            None => None,
        }
    }
}

/// A parsed member value leaves strictly less input.
pub proof fn lemma_member_value_len(key: Seq<char>, s: Seq<char>, acc: ErrAccView)
    ensures
        spec_member_value(key, s, acc) matches Some(p) ==> p.1.len() < s.len(),
{
    lemma_parse_string_len(s);
    lemma_skip_value_len(s);
    if s.len() > 0 && s[0] == '{' {
        lemma_skip_ws_len(s.drop_first());
        lemma_parse_meta_members_len(spec_skip_ws(s.drop_first()), true, Seq::empty());
    }
}

/// Parses the members of the error object, the opening brace and leading
/// whitespace already consumed: the gathered fields and the input after the
/// closing brace.
pub open spec fn spec_parse_error_members(s: Seq<char>, allow_end: bool, acc: ErrAccView) -> Option<
    (ErrAccView, Seq<char>),
>
    decreases s.len(),
    via spec_parse_error_members_dec
{
    if s.len() == 0 {
        None
    } else if allow_end && s[0] == '}' {
        Some((acc, s.drop_first()))
    } else {
        match spec_parse_string(s) {
            None => None,
            Some((key, r1)) => {
                let r2 = spec_skip_ws(r1);
                if r2.len() == 0 || r2[0] != ':' {
                    None
                } else {
                    let r3 = spec_skip_ws(r2.drop_first());
                    match spec_member_value(key, r3, acc) {
                        None => None,
                        Some((acc2, r4)) => {
                            let r5 = spec_skip_ws(r4);
                            if r5.len() == 0 {
                                None
                            } else if r5[0] == ',' {
                                spec_parse_error_members(
                                    spec_skip_ws(r5.drop_first()),
                                    false,
                                    acc2,
                                )
                            } else if r5[0] == '}' {
                                Some((acc2, r5.drop_first()))
                            } else {
                                None
                            }
                        },
                    }
                }
            },
        }
    }
}

#[via_fn]
proof fn spec_parse_error_members_dec(s: Seq<char>, allow_end: bool, acc: ErrAccView) {
    lemma_parse_string_len(s);
    if s.len() > 0 && !(allow_end && s[0] == '}') {
        match spec_parse_string(s) {
            None => {},
            Some((key, r1)) => {
                lemma_skip_ws_len(r1);
                let r2 = spec_skip_ws(r1);
                if r2.len() > 0 && r2[0] == ':' {
                    lemma_skip_ws_len(r2.drop_first());
                    let r3 = spec_skip_ws(r2.drop_first());
                    lemma_member_value_len(key, r3, acc);
                    match spec_member_value(key, r3, acc) {
                        None => {},
                        Some((acc2, r4)) => {
                            lemma_skip_ws_len(r4);
                            let r5 = spec_skip_ws(r4);
                            if r5.len() > 0 && r5[0] == ',' {
                                lemma_skip_ws_len(r5.drop_first());
                            }
                        },
                    }
                }
            },
        }
    }
}

/// Parses the canonical JSON form of a Twirp error: the whole input must be
/// one object, with whitespace allowed around tokens. The `code` and `msg`
/// members are required, `meta` defaults to empty, unknown members are
/// skipped, duplicates rejected.
pub open spec fn spec_parse_error(s: Seq<char>) -> Option<crate::error::TwirpErrorView> {
    let r0 = spec_skip_ws(s);
    if r0.len() == 0 || r0[0] != '{' {
        None
    } else {
        match spec_parse_error_members(
            spec_skip_ws(r0.drop_first()),
            true,
            ErrAccView { code: None, msg: None, meta: None },
        ) {
            None => None,
            Some((acc, rest)) => {
                if spec_skip_ws(rest).len() != 0 {
                    None
                } else {
                    match (acc.code, acc.msg) {
                        (Some(c), Some(m)) => Some(
                            crate::error::TwirpErrorView {
                                code: c,
                                msg: m,
                                meta: match acc.meta {
                                    Some(mm) => mm,
                                    None => Seq::empty(),
                                },
                            },
                        ),
                        _ => None,
                    }
                }
            },
        }
    }
}

// ---------------------------------------------------------------------------
// The executable parser. Each function works at a position in a character
// vector and is proved to compute exactly what the specification parser says
// of the input from that position on.
// ---------------------------------------------------------------------------

/// The input from a position on.
pub open spec fn suffix_from(s: Seq<char>, i: int) -> Seq<char> {
    s.subrange(i, s.len() as int)
}

/// The position after leading whitespace.
fn skip_ws_at(s: &Vec<char>, i: usize) -> (r: usize)
    requires
        i <= s.len(),
    ensures
        i <= r <= s.len(),
        suffix_from(s@, r as int) == spec_skip_ws(suffix_from(s@, i as int)),
    decreases s.len() - i,
{
    if i < s.len() {
        let c = s[i];
        if c == ' ' || c == '\t' || c == '\n' || c == '\r' {
            proof {
                assert(suffix_from(s@, i as int).drop_first() =~= suffix_from(s@, i + 1));
            }
            return skip_ws_at(s, i + 1);
        }
    }
    i
}

/// The value of a hexadecimal digit.
fn hex_val(c: char) -> (r: Option<u32>)
    ensures
        r == spec_hex_val(c),
{
    let n = c as u32;
    if 48 <= n && n <= 57 {
        Some(n - 48)
    } else if 97 <= n && n <= 102 {
        Some(n - 87)
    } else if 65 <= n && n <= 70 {
        Some(n - 55)
    } else {
        None
    }
}

/// The code point of four hexadecimal digits.
fn hex4(a: char, b: char, c: char, d: char) -> (r: Option<u32>)
    ensures
        r == spec_hex4(a, b, c, d),
{
    match (hex_val(a), hex_val(b), hex_val(c), hex_val(d)) {
        (Some(va), Some(vb), Some(vc), Some(vd)) => Some(va * 4096 + vb * 256 + vc * 16 + vd),
        _ => None,
    }
}

/// The character an escape letter stands for, `\u` aside.
fn unescape_char(e: char) -> (r: Option<char>)
    ensures
        r == spec_unescape_char(e),
{
    if e == '"' { Some('"') }
    else if e == '\\' { Some('\\') }
    else if e == '/' { Some('/') }
    else if e == 'b' { Some('\u{8}') }
    else if e == 'f' { Some('\u{c}') }
    else if e == 'n' { Some('\n') }
    else if e == 'r' { Some('\r') }
    else if e == 't' { Some('\t') }
    else { None }
}

/// Relies on `char::from_u32`: a code point outside the surrogate range and
/// at most 0x10FFFF converts to the character with that value.
#[verifier::external_body]
fn char_from_code(cp: u32) -> (r: char)
    requires
        cp < 0xD800 || (0xE000 <= cp && cp <= 0x10FFFF),
    ensures
        r == (cp as char),
{
    char::from_u32(cp).unwrap_or(' ')
}

/// Parses the inside of a JSON string at a position, the opening quote
/// already consumed: the decoded characters and the position after the
/// closing quote.
#[verifier::rlimit(100)]
#[verifier::spinoff_prover]
fn parse_string_body_at(s: &Vec<char>, j: usize) -> (r: Option<(Vec<char>, usize)>)
    requires
        j <= s.len(),
    ensures
        match r {
            Some(p) => j < p.1 <= s.len() && spec_parse_string_body(suffix_from(s@, j as int))
                == Some((p.0@, suffix_from(s@, p.1 as int))),
            None => spec_parse_string_body(suffix_from(s@, j as int)) is None,
        },
    decreases s.len() - j,
{
    if j >= s.len() {
        return None;
    }
    let c = s[j];
    if c == '"' {
        proof {
            assert(suffix_from(s@, j as int).drop_first() =~= suffix_from(s@, j + 1));
        }
        let empty: Vec<char> = Vec::new();
        proof {
            assert(empty@ =~= Seq::<char>::empty());
        }
        return Some((empty, j + 1));
    }
    if c == '\\' {
        if j + 1 >= s.len() {
            return None;
        }
        let e = s[j + 1];
        if e == 'u' {
            if s.len() - j < 6 {
                return None;
            }
            match hex4(s[j + 2], s[j + 3], s[j + 4], s[j + 5]) {
                None => None,
                Some(cp) => {
                    if 0xD800 <= cp && cp < 0xE000 {
                        return None;
                    }
                    proof {
                        assert(suffix_from(s@, j as int).skip(6) =~= suffix_from(s@, j + 6));
                    }
                    match parse_string_body_at(s, j + 6) {
                        None => None,
                        Some((mut v, k)) => {
                            let c2 = char_from_code(cp);
                            v.insert(0, c2);
                            proof {
                                assert(v@ =~= seq![cp as char] + v@.drop_first());
                            }
                            Some((v, k))
                        },
                    }
                },
            }
        } else {
            match unescape_char(e) {
                None => None,
                Some(c2) => {
                    proof {
                        assert(suffix_from(s@, j as int).skip(2) =~= suffix_from(s@, j + 2));
                    }
                    match parse_string_body_at(s, j + 2) {
                        None => None,
                        Some((mut v, k)) => {
                            v.insert(0, c2);
                            proof {
                                assert(v@ =~= seq![c2] + v@.drop_first());
                            }
                            Some((v, k))
                        },
                    }
                },
            }
        }
    } else if (c as u32) < 32 {
        None
    } else {
        proof {
            assert(suffix_from(s@, j as int).drop_first() =~= suffix_from(s@, j + 1));
        }
        match parse_string_body_at(s, j + 1) {
            None => None,
            Some((mut v, k)) => {
                v.insert(0, c);
                proof {
                    assert(v@ =~= seq![c] + v@.drop_first());
                }
                Some((v, k))
            },
        }
    }
}

/// Parses a JSON string at a position: its decoded characters and the
/// position after the closing quote.
fn parse_string_at(s: &Vec<char>, i: usize) -> (r: Option<(Vec<char>, usize)>)
    requires
        i <= s.len(),
    ensures
        match r {
            Some(p) => i < p.1 <= s.len() && spec_parse_string(suffix_from(s@, i as int)) == Some(
                (p.0@, suffix_from(s@, p.1 as int)),
            ),
            None => spec_parse_string(suffix_from(s@, i as int)) is None,
        },
{
    if i >= s.len() || s[i] != '"' {
        return None;
    }
    proof {
        assert(suffix_from(s@, i as int).drop_first() =~= suffix_from(s@, i + 1));
    }
    parse_string_body_at(s, i + 1)
}

/// Skips the rest of a string at a position without decoding it: the
/// position after the closing quote.
fn skip_string_raw_at(s: &Vec<char>, j: usize) -> (r: Option<usize>)
    requires
        j <= s.len(),
    ensures
        match r {
            Some(k) => j < k <= s.len() && spec_skip_string_raw(suffix_from(s@, j as int)) == Some(
                suffix_from(s@, k as int),
            ),
            None => spec_skip_string_raw(suffix_from(s@, j as int)) is None,
        },
    decreases s.len() - j,
{
    if j >= s.len() {
        return None;
    }
    let c = s[j];
    if c == '"' {
        proof {
            assert(suffix_from(s@, j as int).drop_first() =~= suffix_from(s@, j + 1));
        }
        Some(j + 1)
    } else if c == '\\' {
        if j + 1 >= s.len() {
            return None;
        }
        proof {
            assert(suffix_from(s@, j as int).skip(2) =~= suffix_from(s@, j + 2));
        }
        skip_string_raw_at(s, j + 2)
    } else {
        proof {
            assert(suffix_from(s@, j as int).drop_first() =~= suffix_from(s@, j + 1));
        }
        skip_string_raw_at(s, j + 1)
    }
}

/// Skips to the end of a composite value at a position by tracking bracket
/// depth: the position after the bracket that closes depth 1.
fn skip_composite_at(s: &Vec<char>, j: usize, depth: usize) -> (r: Option<usize>)
    requires
        j <= s.len(),
        depth <= j,
    ensures
        match r {
            Some(k) => j < k <= s.len() && spec_skip_composite(suffix_from(s@, j as int), depth as nat)
                == Some(suffix_from(s@, k as int)),
            None => spec_skip_composite(suffix_from(s@, j as int), depth as nat) is None,
        },
    decreases s.len() - j,
{
    if j >= s.len() {
        return None;
    }
    let c = s[j];
    if c == '"' {
        proof {
            assert(suffix_from(s@, j as int).drop_first() =~= suffix_from(s@, j + 1));
        }
        match skip_string_raw_at(s, j + 1) {
            None => None,
            Some(k) => skip_composite_at(s, k, depth),
        }
    } else if c == '{' || c == '[' {
        proof {
            assert(suffix_from(s@, j as int).drop_first() =~= suffix_from(s@, j + 1));
        }
        skip_composite_at(s, j + 1, depth + 1)
    } else if c == '}' || c == ']' {
        proof {
            assert(suffix_from(s@, j as int).drop_first() =~= suffix_from(s@, j + 1));
        }
        if depth == 1 {
            Some(j + 1)
        } else if depth == 0 {
            None
        } else {
            skip_composite_at(s, j + 1, depth - 1)
        }
    } else {
        proof {
            assert(suffix_from(s@, j as int).drop_first() =~= suffix_from(s@, j + 1));
        }
        skip_composite_at(s, j + 1, depth)
    }
}

/// The position after a run of number characters.
fn skip_number_at(s: &Vec<char>, j: usize) -> (r: usize)
    requires
        j <= s.len(),
    ensures
        j <= r <= s.len(),
        suffix_from(s@, r as int) == spec_skip_number(suffix_from(s@, j as int)),
    decreases s.len() - j,
{
    if j < s.len() {
        let c = s[j];
        if ('0' <= c && c <= '9') || c == '-' || c == '+' || c == '.' || c == 'e' || c == 'E' {
            proof {
                assert(suffix_from(s@, j as int).drop_first() =~= suffix_from(s@, j + 1));
            }
            return skip_number_at(s, j + 1);
        }
    }
    j
}

/// Skips one JSON value of any kind at a position: the position after it.
fn skip_value_at(s: &Vec<char>, j: usize) -> (r: Option<usize>)
    requires
        j <= s.len(),
    ensures
        match r {
            Some(k) => j < k <= s.len() && spec_skip_value(suffix_from(s@, j as int)) == Some(
                suffix_from(s@, k as int),
            ),
            None => spec_skip_value(suffix_from(s@, j as int)) is None,
        },
{
    if j >= s.len() {
        return None;
    }
    let c = s[j];
    if c == '"' {
        proof {
            assert(suffix_from(s@, j as int).drop_first() =~= suffix_from(s@, j + 1));
        }
        skip_string_raw_at(s, j + 1)
    } else if c == '{' || c == '[' {
        skip_composite_at(s, j, 0)
    } else if c == 't' {
        if s.len() - j >= 4 && s[j + 1] == 'r' && s[j + 2] == 'u' && s[j + 3] == 'e' {
            proof {
                assert(suffix_from(s@, j as int).skip(4) =~= suffix_from(s@, j + 4));
            }
            Some(j + 4)
        } else {
            None
        }
    } else if c == 'f' {
        if s.len() - j >= 5 && s[j + 1] == 'a' && s[j + 2] == 'l' && s[j + 3] == 's' && s[j + 4]
            == 'e' {
            proof {
                assert(suffix_from(s@, j as int).skip(5) =~= suffix_from(s@, j + 5));
            }
            Some(j + 5)
        } else {
            None
        }
    } else if c == 'n' {
        if s.len() - j >= 4 && s[j + 1] == 'u' && s[j + 2] == 'l' && s[j + 3] == 'l' {
            proof {
                assert(suffix_from(s@, j as int).skip(4) =~= suffix_from(s@, j + 4));
            }
            Some(j + 4)
        } else {
            None
        }
    } else if c == '-' || ('0' <= c && c <= '9') {
        proof {
            assert(suffix_from(s@, j as int).drop_first() =~= suffix_from(s@, j + 1));
            lemma_skip_number_len(suffix_from(s@, j + 1));
        }
        Some(skip_number_at(s, j + 1))
    } else {
        None
    }
}

/// The error code a wire token stands for, if any.
pub fn code_of_token(t: &Vec<char>) -> (r: Option<TwirpErrorCode>)
    ensures
        r == spec_code_of_token(t@),
{
    if crate::text::chars_eq_str(t, code_token(TwirpErrorCode::Canceled)) {
        Some(TwirpErrorCode::Canceled)
    } else if crate::text::chars_eq_str(t, code_token(TwirpErrorCode::Unknown)) {
        Some(TwirpErrorCode::Unknown)
    } else if crate::text::chars_eq_str(t, code_token(TwirpErrorCode::InvalidArgument)) {
        Some(TwirpErrorCode::InvalidArgument)
    } else if crate::text::chars_eq_str(t, code_token(TwirpErrorCode::Malformed)) {
        Some(TwirpErrorCode::Malformed)
    } else if crate::text::chars_eq_str(t, code_token(TwirpErrorCode::DeadlineExceeded)) {
        Some(TwirpErrorCode::DeadlineExceeded)
    } else if crate::text::chars_eq_str(t, code_token(TwirpErrorCode::NotFound)) {
        Some(TwirpErrorCode::NotFound)
    } else if crate::text::chars_eq_str(t, code_token(TwirpErrorCode::BadRoute)) {
        Some(TwirpErrorCode::BadRoute)
    } else if crate::text::chars_eq_str(t, code_token(TwirpErrorCode::AlreadyExists)) {
        Some(TwirpErrorCode::AlreadyExists)
    } else if crate::text::chars_eq_str(t, code_token(TwirpErrorCode::PermissionDenied)) {
        Some(TwirpErrorCode::PermissionDenied)
    } else if crate::text::chars_eq_str(t, code_token(TwirpErrorCode::Unauthenticated)) {
        Some(TwirpErrorCode::Unauthenticated)
    } else if crate::text::chars_eq_str(t, code_token(TwirpErrorCode::ResourceExhausted)) {
        Some(TwirpErrorCode::ResourceExhausted)
    } else if crate::text::chars_eq_str(t, code_token(TwirpErrorCode::FailedPrecondition)) {
        Some(TwirpErrorCode::FailedPrecondition)
    } else if crate::text::chars_eq_str(t, code_token(TwirpErrorCode::Aborted)) {
        Some(TwirpErrorCode::Aborted)
    } else if crate::text::chars_eq_str(t, code_token(TwirpErrorCode::OutOfRange)) {
        Some(TwirpErrorCode::OutOfRange)
    } else if crate::text::chars_eq_str(t, code_token(TwirpErrorCode::Unimplemented)) {
        Some(TwirpErrorCode::Unimplemented)
    } else if crate::text::chars_eq_str(t, code_token(TwirpErrorCode::Internal)) {
        Some(TwirpErrorCode::Internal)
    } else if crate::text::chars_eq_str(t, code_token(TwirpErrorCode::Unavailable)) {
        Some(TwirpErrorCode::Unavailable)
    } else if crate::text::chars_eq_str(t, code_token(TwirpErrorCode::Dataloss)) {
        Some(TwirpErrorCode::Dataloss)
    } else {
        None
    }
}

/// The string value of an optional string.
pub open spec fn view_opt_str(m: Option<String>) -> Option<Seq<char>> {
    match m {
        Some(x) => Some(x@),
        None => None,
    }
}

/// The metadata value of optional metadata.
pub open spec fn view_opt_meta(m: Option<Vec<(String, String)>>) -> Option<
    Seq<(Seq<char>, Seq<char>)>,
> {
    match m {
        Some(x) => Some(crate::error::spec_meta_view_of(x@)),
        None => None,
    }
}

/// The fields gathered so far while parsing an error object.
pub struct ErrAcc {
    pub code: Option<TwirpErrorCode>,
    pub msg: Option<String>,
    pub meta: Option<Vec<(String, String)>>,
}

impl View for ErrAcc {
    type V = ErrAccView;

    open spec fn view(&self) -> ErrAccView {
        ErrAccView { code: self.code, msg: view_opt_str(self.msg), meta: view_opt_meta(self.meta) }
    }
}

/// Parses the members of the `meta` object at a position, the opening brace
/// and leading whitespace already consumed.
fn parse_meta_members_at(
    s: &Vec<char>,
    i: usize,
    allow_end: bool,
    acc: Vec<(String, String)>,
) -> (r: Option<(Vec<(String, String)>, usize)>)
    requires
        i <= s.len(),
    ensures
        match r {
            Some(p) => i < p.1 <= s.len() && spec_parse_meta_members(
                suffix_from(s@, i as int),
                allow_end,
                crate::error::spec_meta_view_of(acc@),
            ) == Some((crate::error::spec_meta_view_of(p.0@), suffix_from(s@, p.1 as int))),
            None => spec_parse_meta_members(
                suffix_from(s@, i as int),
                allow_end,
                crate::error::spec_meta_view_of(acc@),
            ) is None,
        },
    decreases s.len() - i,
{
    if i >= s.len() {
        return None;
    }
    if allow_end && s[i] == '}' {
        proof {
            assert(suffix_from(s@, i as int).drop_first() =~= suffix_from(s@, i + 1));
        }
        return Some((acc, i + 1));
    }
    match parse_string_at(s, i) {
        None => None,
        Some((kv, j1)) => {
            let j2 = skip_ws_at(s, j1);
            if j2 >= s.len() || s[j2] != ':' {
                return None;
            }
            proof {
                assert(suffix_from(s@, j2 as int).drop_first() =~= suffix_from(s@, j2 + 1));
            }
            let j3 = skip_ws_at(s, j2 + 1);
            match parse_string_at(s, j3) {
                None => None,
                Some((vv, j4)) => {
                    let k = crate::text::string_from_chars(&kv);
                    let v = crate::text::string_from_chars(&vv);
                    let mut acc2 = acc;
                    crate::error::meta_set(&mut acc2, k, v);
                    let j5 = skip_ws_at(s, j4);
                    if j5 >= s.len() {
                        return None;
                    }
                    if s[j5] == ',' {
                        proof {
                            assert(suffix_from(s@, j5 as int).drop_first() =~= suffix_from(
                                s@,
                                j5 + 1,
                            ));
                        }
                        let j6 = skip_ws_at(s, j5 + 1);
                        parse_meta_members_at(s, j6, false, acc2)
                    } else if s[j5] == '}' {
                        proof {
                            assert(suffix_from(s@, j5 as int).drop_first() =~= suffix_from(
                                s@,
                                j5 + 1,
                            ));
                        }
                        Some((acc2, j5 + 1))
                    } else {
                        None
                    }
                },
            }
        },
    }
}

/// Parses the value of one member of the error object at a position, the key
/// and colon already consumed.
fn member_value_at(s: &Vec<char>, key: &Vec<char>, i: usize, acc: ErrAcc) -> (r: Option<
    (ErrAcc, usize),
>)
    requires
        i <= s.len(),
    ensures
        match r {
            Some(p) => i < p.1 <= s.len() && spec_member_value(
                key@,
                suffix_from(s@, i as int),
                acc@,
            ) == Some((p.0@, suffix_from(s@, p.1 as int))),
            None => spec_member_value(key@, suffix_from(s@, i as int), acc@) is None,
        },
{
    proof {
        reveal_strlit("code");
        reveal_strlit("msg");
        reveal_strlit("meta");
        assert("code"@ =~= spec_key_code());
        assert("msg"@ =~= spec_key_msg());
        assert("meta"@ =~= spec_key_meta());
    }
    if crate::text::chars_eq_str(key, "code") {
        if acc.code.is_some() {
            return None;
        }
        match parse_string_at(s, i) {
            None => None,
            Some((tok, r)) => match code_of_token(&tok) {
                Some(c) => Some((ErrAcc { code: Some(c), ..acc }, r)),
                None => None,
            },
        }
    } else if crate::text::chars_eq_str(key, "msg") {
        if acc.msg.is_some() {
            return None;
        }
        match parse_string_at(s, i) {
            None => None,
            Some((m, r)) => Some(
                (ErrAcc { msg: Some(crate::text::string_from_chars(&m)), ..acc }, r),
            ),
        }
    } else if crate::text::chars_eq_str(key, "meta") {
        if acc.meta.is_some() {
            return None;
        }
        if i >= s.len() || s[i] != '{' {
            return None;
        }
        proof {
            assert(suffix_from(s@, i as int).drop_first() =~= suffix_from(s@, i + 1));
        }
        let j = skip_ws_at(s, i + 1);
        let empty: Vec<(String, String)> = Vec::new();
        proof {
            assert(crate::error::spec_meta_view_of(empty@) =~= Seq::<(Seq<char>, Seq<char>)>::empty());
        }
        match parse_meta_members_at(s, j, true, empty) {
            None => None,
            Some((mm, r)) => Some((ErrAcc { meta: Some(mm), ..acc }, r)),
        }
    } else {
        match skip_value_at(s, i) {
            None => None,
            Some(r) => Some((acc, r)),
        }
    }
}

/// Parses the members of the error object at a position, the opening brace
/// and leading whitespace already consumed.
fn parse_error_members_at(s: &Vec<char>, i: usize, allow_end: bool, acc: ErrAcc) -> (r: Option<
    (ErrAcc, usize),
>)
    requires
        i <= s.len(),
    ensures
        match r {
            Some(p) => i < p.1 <= s.len() && spec_parse_error_members(
                suffix_from(s@, i as int),
                allow_end,
                acc@,
            ) == Some((p.0@, suffix_from(s@, p.1 as int))),
            None => spec_parse_error_members(suffix_from(s@, i as int), allow_end, acc@) is None,
        },
    decreases s.len() - i,
{
    if i >= s.len() {
        return None;
    }
    if allow_end && s[i] == '}' {
        proof {
            assert(suffix_from(s@, i as int).drop_first() =~= suffix_from(s@, i + 1));
        }
        return Some((acc, i + 1));
    }
    match parse_string_at(s, i) {
        None => None,
        Some((key, j1)) => {
            let j2 = skip_ws_at(s, j1);
            if j2 >= s.len() || s[j2] != ':' {
                return None;
            }
            proof {
                assert(suffix_from(s@, j2 as int).drop_first() =~= suffix_from(s@, j2 + 1));
            }
            let j3 = skip_ws_at(s, j2 + 1);
            match member_value_at(s, &key, j3, acc) {
                None => None,
                Some((acc2, j4)) => {
                    let j5 = skip_ws_at(s, j4);
                    if j5 >= s.len() {
                        return None;
                    }
                    if s[j5] == ',' {
                        proof {
                            assert(suffix_from(s@, j5 as int).drop_first() =~= suffix_from(
                                s@,
                                j5 + 1,
                            ));
                        }
                        let j6 = skip_ws_at(s, j5 + 1);
                        parse_error_members_at(s, j6, false, acc2)
                    } else if s[j5] == '}' {
                        proof {
                            assert(suffix_from(s@, j5 as int).drop_first() =~= suffix_from(
                                s@,
                                j5 + 1,
                            ));
                        }
                        Some((acc2, j5 + 1))
                    } else {
                        None
                    }
                },
            }
        },
    }
}

/// Whether the fields gathered while parsing hold well-formed metadata.
pub open spec fn spec_acc_wf(a: ErrAccView) -> bool {
    a.meta matches Some(m) ==> crate::error::wf_meta(m)
}

/// A parsed member value keeps the metadata well-formed.
pub proof fn lemma_member_value_wf(key: Seq<char>, s: Seq<char>, acc: ErrAccView)
    requires
        spec_acc_wf(acc),
    ensures
        spec_member_value(key, s, acc) matches Some(p) ==> spec_acc_wf(p.0),
{
    if key == spec_key_meta() && !(acc.meta is Some) && s.len() > 0 && s[0] == '{' {
        lemma_parse_meta_members_wf(spec_skip_ws(s.drop_first()), true, Seq::empty());
    }
}

/// Parsed error members keep the metadata well-formed.
pub proof fn lemma_parse_error_members_wf(s: Seq<char>, allow_end: bool, acc: ErrAccView)
    requires
        spec_acc_wf(acc),
    ensures
        spec_parse_error_members(s, allow_end, acc) matches Some(p) ==> spec_acc_wf(p.0),
    decreases s.len(),
{
    lemma_parse_string_len(s);
    if s.len() > 0 && !(allow_end && s[0] == '}') {
        match spec_parse_string(s) {
            None => {},
            Some((key, r1)) => {
                lemma_skip_ws_len(r1);
                let r2 = spec_skip_ws(r1);
                if r2.len() > 0 && r2[0] == ':' {
                    lemma_skip_ws_len(r2.drop_first());
                    let r3 = spec_skip_ws(r2.drop_first());
                    lemma_member_value_len(key, r3, acc);
                    lemma_member_value_wf(key, r3, acc);
                    match spec_member_value(key, r3, acc) {
                        None => {},
                        Some((acc2, r4)) => {
                            lemma_skip_ws_len(r4);
                            let r5 = spec_skip_ws(r4);
                            if r5.len() > 0 && r5[0] == ',' {
                                lemma_skip_ws_len(r5.drop_first());
                                lemma_parse_error_members_wf(
                                    spec_skip_ws(r5.drop_first()),
                                    false,
                                    acc2,
                                );
                            }
                        },
                    }
                }
            },
        }
    }
}

/// Parses the canonical JSON form of a Twirp error. The result, when the
/// input parses, is a fresh error with no cause and unique metadata keys;
/// any other input yields nothing.
pub fn error_from_json(s: &str) -> (r: Option<TwirpError>)
    ensures
        match r {
            Some(e) => spec_parse_error(s@) == Some(e@) && e.wf() && e.cause is Absent,
            None => spec_parse_error(s@) is None,
        },
{
    let chars = crate::text::str_to_chars(s);
    proof {
        assert(suffix_from(chars@, 0) =~= s@);
    }
    let i0 = skip_ws_at(&chars, 0);
    if i0 >= chars.len() || chars[i0] != '{' {
        return None;
    }
    proof {
        assert(suffix_from(chars@, i0 as int).drop_first() =~= suffix_from(chars@, i0 + 1));
    }
    let i1 = skip_ws_at(&chars, i0 + 1);
    let start = ErrAcc { code: None, msg: None, meta: None };
    proof {
        assert(start@ == (ErrAccView { code: None, msg: None, meta: None }));
    }
    match parse_error_members_at(&chars, i1, true, start) {
        None => None,
        Some((acc, j)) => {
            let k = skip_ws_at(&chars, j);
            if k < chars.len() {
                proof {
                    assert(suffix_from(chars@, k as int).len() != 0);
                }
                return None;
            }
            proof {
                assert(suffix_from(chars@, k as int).len() == 0);
                lemma_parse_error_members_wf(
                    suffix_from(chars@, i1 as int),
                    true,
                    ErrAccView { code: None, msg: None, meta: None },
                );
            }
            match (acc.code, acc.msg) {
                (Some(c), Some(m)) => {
                    let meta = match acc.meta {
                        Some(mm) => mm,
                        None => Vec::new(),
                    };
                    let e = TwirpError {
                        code: c,
                        msg: m,
                        meta,
                        cause: crate::error::TwirpErrorCause::Absent,
                    };
                    proof {
                        assert(e@.meta =~= (match spec_parse_error(s@) {
                            Some(v) => v.meta,
                            None => Seq::<(Seq<char>, Seq<char>)>::empty(),
                        }));
                    }
                    Some(e)
                },
                _ => None,
            }
        },
    }
}

// ---------------------------------------------------------------------------
// The round trip: an error's canonical JSON form parses back to the same
// value.
// ---------------------------------------------------------------------------

/// A character that stands as itself inside a JSON string.
pub open spec fn spec_is_plain_char(c: char) -> bool {
    c != '"' && c != '\\' && (c as u32) >= 32
}

/// A string of plain characters escapes to itself.
proof fn lemma_escape_plain(t: Seq<char>)
    requires
        forall|i: int| 0 <= i < t.len() ==> spec_is_plain_char(#[trigger] t[i]),
    ensures
        spec_escape(t) == t,
    decreases t.len(),
{
    if t.len() > 0 {
        lemma_escape_plain(t.drop_first());
        assert(spec_escape_char(t[0]) =~= seq![t[0]]);
        assert(spec_escape(t) =~= t);
    }
}

/// A hexadecimal digit written and read again gives its value back.
proof fn lemma_hex_char_val(n: u32)
    requires
        n < 16,
    ensures
        spec_hex_val(spec_hex_char(n)) == Some(n),
{
}

/// The escaped form of a string followed by its closing quote parses back to
/// the string itself.
#[verifier::rlimit(100)]
#[verifier::spinoff_prover]
proof fn lemma_parse_body_escaped(content: Seq<char>, rest: Seq<char>)
    ensures
        spec_parse_string_body(spec_escape(content) + seq!['"'] + rest) == Some((content, rest)),
    decreases content.len(),
{
    let input = spec_escape(content) + seq!['"'] + rest;
    if content.len() == 0 {
        assert(input =~= seq!['"'] + rest);
        assert(input[0] == '"');
        assert(input.drop_first() =~= rest);
        assert(content =~= Seq::<char>::empty());
    } else {
        let c = content[0];
        let tail = content.drop_first();
        lemma_parse_body_escaped(tail, rest);
        let sub = spec_escape(tail) + seq!['"'] + rest;
        assert(spec_escape(content) == spec_escape_char(c) + spec_escape(tail));
        assert(seq![c] + tail =~= content);
        if c == '"' {
            assert(input =~= seq!['\\', '"'] + sub);
            assert(input.skip(2) =~= sub);
        } else if c == '\\' {
            assert(input =~= seq!['\\', '\\'] + sub);
            assert(input.skip(2) =~= sub);
        } else if c == '\u{8}' {
            assert(input =~= seq!['\\', 'b'] + sub);
            assert(input.skip(2) =~= sub);
        } else if c == '\u{c}' {
            assert(input =~= seq!['\\', 'f'] + sub);
            assert(input.skip(2) =~= sub);
        } else if c == '\n' {
            assert(input =~= seq!['\\', 'n'] + sub);
            assert(input.skip(2) =~= sub);
        } else if c == '\r' {
            assert(input =~= seq!['\\', 'r'] + sub);
            assert(input.skip(2) =~= sub);
        } else if c == '\t' {
            assert(input =~= seq!['\\', 't'] + sub);
            assert(input.skip(2) =~= sub);
        } else if (c as u32) < 32 {
            let h1 = spec_hex_char((c as u32) / 16);
            let h2 = spec_hex_char((c as u32) % 16);
            assert(input =~= seq!['\\', 'u', '0', '0', h1, h2] + sub);
            lemma_hex_char_val((c as u32) / 16);
            lemma_hex_char_val((c as u32) % 16);
            assert(spec_hex_val('0') == Some(0u32));
            assert((c as u32) / 16 * 16 + (c as u32) % 16 == (c as u32));
            assert(spec_hex4('0', '0', h1, h2) == Some(c as u32));
            assert(input.skip(6) =~= sub);
            vstd::utf8::char_u32_cast(c, c as u32);
            assert(((c as u32) as char) == c);
        } else {
            assert(input =~= seq![c] + sub);
            assert(input.drop_first() =~= sub);
        }
    }
}

/// A quoted string followed by anything parses back to the string itself.
proof fn lemma_parse_quoted(content: Seq<char>, rest: Seq<char>)
    ensures
        spec_parse_string(spec_quoted(content) + rest) == Some((content, rest)),
{
    let input = spec_quoted(content) + rest;
    assert(input[0] == '"');
    assert(input.drop_first() =~= spec_escape(content) + seq!['"'] + rest);
    lemma_parse_body_escaped(content, rest);
}

/// Every code token escapes to itself: its characters are plain.
proof fn lemma_token_plain(code: TwirpErrorCode)
    ensures
        spec_escape(spec_code_token(code)) == spec_code_token(code),
        forall|i: int|
            0 <= i < spec_code_token(code).len() ==> spec_is_plain_char(
                #[trigger] spec_code_token(code)[i],
            ),
{
    assert forall|i: int|
        0 <= i < spec_code_token(code).len() implies spec_is_plain_char(
        #[trigger] spec_code_token(code)[i],
    ) by {};
    lemma_escape_plain(spec_code_token(code));
}

/// Reading a code token back gives the code it was written for.
proof fn lemma_code_token_inverse(code: TwirpErrorCode)
    ensures
        spec_code_of_token(spec_code_token(code)) == Some(code),
{
}

/// Inserting a fresh key appends it.
proof fn lemma_meta_insert_fresh(
    acc: Seq<(Seq<char>, Seq<char>)>,
    k: Seq<char>,
    v: Seq<char>,
)
    requires
        forall|j: int| 0 <= j < acc.len() ==> (#[trigger] acc[j]).0 != k,
    ensures
        crate::error::spec_meta_insert(acc, k, v) == acc.push((k, v)),
{
    crate::error::lemma_first_key_index_missing(acc, k);
}

/// The serialized metadata members followed by the closing brace parse back
/// to the metadata itself, appended to what was gathered before.
#[verifier::rlimit(100)]
#[verifier::spinoff_prover]
proof fn lemma_parse_meta_serialized(
    meta: Seq<(Seq<char>, Seq<char>)>,
    acc: Seq<(Seq<char>, Seq<char>)>,
    allow_end: bool,
    rest: Seq<char>,
)
    requires
        meta.len() > 0,
        crate::error::wf_meta(acc + meta),
    ensures
        spec_parse_meta_members(spec_meta_members(meta) + seq!['}'] + rest, allow_end, acc)
            == Some((acc + meta, rest)),
    decreases meta.len(),
{
    let k = meta[0].0;
    let v = meta[0].1;
    let input = spec_meta_members(meta) + seq!['}'] + rest;
    let tailpart: Seq<char> = if meta.len() == 1 {
        Seq::empty()
    } else {
        seq![','] + spec_meta_members(meta.drop_first())
    };
    let r1 = seq![':'] + spec_quoted(v) + tailpart + seq!['}'] + rest;
    assert(input =~= spec_quoted(k) + r1);
    lemma_parse_quoted(k, r1);
    assert(input[0] == '"');
    assert(spec_skip_ws(r1) == r1);
    let r2 = spec_quoted(v) + tailpart + seq!['}'] + rest;
    assert(r1.drop_first() =~= r2);
    assert(spec_skip_ws(r2) == r2);
    lemma_parse_quoted(v, tailpart + seq!['}'] + rest);
    assert(r2 =~= spec_quoted(v) + (tailpart + seq!['}'] + rest));
    let r4 = tailpart + seq!['}'] + rest;
    assert forall|j: int| 0 <= j < acc.len() implies (#[trigger] acc[j]).0 != k by {
        assert((acc + meta)[j] == acc[j]);
        assert((acc + meta)[acc.len() as int] == meta[0]);
    }
    lemma_meta_insert_fresh(acc, k, v);
    let acc2 = acc.push((k, v));
    if meta.len() == 1 {
        assert(r4 =~= seq!['}'] + rest);
        assert(spec_skip_ws(r4) == r4);
        assert(r4.drop_first() =~= rest);
        assert(acc2 =~= acc + meta);
    } else {
        let tail = meta.drop_first();
        assert(r4 =~= seq![','] + (spec_meta_members(tail) + seq!['}'] + rest));
        assert(spec_skip_ws(r4) == r4);
        assert(r4[0] == ',');
        let r6 = spec_meta_members(tail) + seq!['}'] + rest;
        assert(r4.drop_first() =~= r6);
        assert(spec_meta_members(tail) =~= spec_quoted(tail[0].0) + (seq![':'] + spec_quoted(
            tail[0].1,
        ) + (if tail.len() == 1 {
            Seq::<char>::empty()
        } else {
            seq![','] + spec_meta_members(tail.drop_first())
        })));
        assert(r6[0] == '"');
        assert(!spec_is_ws(r6[0]));
        assert(spec_skip_ws(r6) == r6);
        assert(acc2 + tail =~= acc + meta);
        lemma_parse_meta_serialized(tail, acc2, false, rest);
    }
}

/// Law: an error's canonical JSON form parses back to the same value, for
/// any error whose metadata keys are unique.
/// The accumulator after the serialized members have been read.
spec fn round_trip_acc(v: crate::error::TwirpErrorView) -> ErrAccView {
    ErrAccView {
        code: Some(v.code),
        msg: Some(v.msg),
        meta: if v.meta.len() == 0 {
            None
        } else {
            Some(v.meta)
        },
    }
}

/// The serialized `meta` member followed by the closing brace parses back to
/// the metadata.
#[verifier::rlimit(100)]
#[verifier::spinoff_prover]
proof fn lemma_round_trip_meta_member(v: crate::error::TwirpErrorView)
    requires
        crate::error::wf_meta(v.meta),
        v.meta.len() > 0,
    ensures
        spec_parse_error_members(
            spec_quoted(spec_key_meta()) + seq![':'] + seq!['{'] + spec_meta_members(v.meta)
                + seq!['}'] + seq!['}'],
            false,
            ErrAccView { code: Some(v.code), msg: Some(v.msg), meta: None },
        ) == Some((round_trip_acc(v), Seq::<char>::empty())),
{
    let key_meta = spec_key_meta();
    assert forall|i: int|
        0 <= i < key_meta.len() implies spec_is_plain_char(#[trigger] key_meta[i]) by {};
    lemma_escape_plain(key_meta);
    let acc2 = ErrAccView { code: Some(v.code), msg: Some(v.msg), meta: None };
    let acc3 = round_trip_acc(v);
    let c1 = spec_quoted(key_meta) + seq![':'] + seq!['{'] + spec_meta_members(v.meta)
        + seq!['}'] + seq!['}'];
    let c2 = seq![':'] + seq!['{'] + spec_meta_members(v.meta) + seq!['}'] + seq!['}'];
    assert(c1 =~= spec_quoted(key_meta) + c2);
    lemma_parse_quoted(key_meta, c2);
    assert(c1[0] == '"');
    assert(spec_skip_ws(c2) == c2);
    let c3 = seq!['{'] + spec_meta_members(v.meta) + seq!['}'] + seq!['}'];
    assert(c2.drop_first() =~= c3);
    assert(spec_skip_ws(c3) == c3);
    assert(c3[0] == '{');
    let c4 = spec_meta_members(v.meta) + seq!['}'] + seq!['}'];
    assert(c3.drop_first() =~= c4);
    assert(spec_meta_members(v.meta) =~= spec_quoted(v.meta[0].0) + (seq![':'] + spec_quoted(
        v.meta[0].1,
    ) + (if v.meta.len() == 1 {
        Seq::<char>::empty()
    } else {
        seq![','] + spec_meta_members(v.meta.drop_first())
    })));
    assert(c4[0] == '"');
    assert(!spec_is_ws(c4[0]));
    assert(spec_skip_ws(c4) == c4);
    assert(Seq::<(Seq<char>, Seq<char>)>::empty() + v.meta =~= v.meta);
    lemma_parse_meta_serialized(v.meta, Seq::empty(), true, seq!['}']);
    assert(c4 =~= spec_meta_members(v.meta) + seq!['}'] + seq!['}']);
    assert(spec_parse_meta_members(c4, true, Seq::empty()) == Some((v.meta, seq!['}'])));
    assert(spec_member_value(key_meta, c3, acc2) == Some((acc3, seq!['}'])));
    let d1: Seq<char> = seq!['}'];
    assert(spec_skip_ws(d1) == d1);
    assert(d1[0] == '}');
    assert(d1.drop_first() =~= Seq::<char>::empty());
}

/// The serialized `msg` member and what follows it parse back to the message
/// and metadata.
#[verifier::rlimit(100)]
#[verifier::spinoff_prover]
proof fn lemma_round_trip_msg_member(v: crate::error::TwirpErrorView)
    requires
        crate::error::wf_meta(v.meta),
    ensures
        spec_parse_error_members(
            spec_quoted(spec_key_msg()) + seq![':'] + spec_quoted(v.msg) + (if v.meta.len() == 0 {
                Seq::<char>::empty()
            } else {
                spec_json_meta_key() + spec_meta_members(v.meta) + seq!['}']
            }) + seq!['}'],
            false,
            ErrAccView { code: Some(v.code), msg: None, meta: None },
        ) == Some((round_trip_acc(v), Seq::<char>::empty())),
{
    let key_msg = spec_key_msg();
    assert forall|i: int|
        0 <= i < key_msg.len() implies spec_is_plain_char(#[trigger] key_msg[i]) by {};
    lemma_escape_plain(key_msg);
    let acc1 = ErrAccView { code: Some(v.code), msg: None, meta: None };
    let acc2 = ErrAccView { code: Some(v.code), msg: Some(v.msg), meta: None };
    let metapart: Seq<char> = if v.meta.len() == 0 {
        Seq::empty()
    } else {
        spec_json_meta_key() + spec_meta_members(v.meta) + seq!['}']
    };
    let m2 = spec_quoted(key_msg) + seq![':'] + spec_quoted(v.msg) + metapart + seq!['}'];
    let b1 = seq![':'] + spec_quoted(v.msg) + metapart + seq!['}'];
    assert(m2 =~= spec_quoted(key_msg) + b1);
    lemma_parse_quoted(key_msg, b1);
    assert(m2[0] == '"');
    assert(spec_skip_ws(b1) == b1);
    let b2 = spec_quoted(v.msg) + (metapart + seq!['}']);
    assert(b1.drop_first() =~= b2);
    assert(b2[0] == '"');
    assert(spec_skip_ws(b2) == b2);
    lemma_parse_quoted(v.msg, metapart + seq!['}']);
    assert(spec_member_value(key_msg, b2, acc1) == Some((acc2, metapart + seq!['}'])));
    if v.meta.len() == 0 {
        let b3 = metapart + seq!['}'];
        assert(b3 =~= seq!['}']);
        assert(spec_skip_ws(b3) == b3);
        assert(b3[0] == '}');
        assert(b3.drop_first() =~= Seq::<char>::empty());
        assert(round_trip_acc(v) == acc2);
    } else {
        let b3 = metapart + seq!['}'];
        let key_meta = spec_key_meta();
        assert forall|i: int|
            0 <= i < key_meta.len() implies spec_is_plain_char(#[trigger] key_meta[i]) by {};
        lemma_escape_plain(key_meta);
        let c1 = spec_quoted(spec_key_meta()) + seq![':'] + seq!['{'] + spec_meta_members(v.meta)
            + seq!['}'] + seq!['}'];
        assert(spec_json_meta_key() =~= seq![','] + spec_quoted(key_meta) + seq![':'] + seq![
            '{',
        ]);
        assert(b3 =~= seq![','] + c1);
        assert(spec_skip_ws(b3) == b3);
        assert(b3[0] == ',');
        assert(b3.drop_first() =~= c1);
        assert(spec_quoted(spec_key_meta())[0] == '"');
        assert(c1[0] == '"');
        assert(spec_skip_ws(c1) == c1);
        lemma_round_trip_meta_member(v);
    }
}

/// Law: an error's canonical JSON form parses back to the same value, for
/// any error whose metadata keys are unique.
#[verifier::rlimit(100)]
#[verifier::spinoff_prover]
pub proof fn lemma_error_json_round_trip(v: crate::error::TwirpErrorView)
    requires
        crate::error::wf_meta(v.meta),
    ensures
        spec_parse_error(spec_error_json(v)) == Some(v),
{
    let input = spec_error_json(v);
    let key_code = spec_key_code();
    lemma_token_plain(v.code);
    lemma_code_token_inverse(v.code);
    assert forall|i: int|
        0 <= i < key_code.len() implies spec_is_plain_char(#[trigger] key_code[i]) by {};
    lemma_escape_plain(key_code);
    let metapart: Seq<char> = if v.meta.len() == 0 {
        Seq::empty()
    } else {
        spec_json_meta_key() + spec_meta_members(v.meta) + seq!['}']
    };
    let m2 = spec_quoted(spec_key_msg()) + seq![':'] + spec_quoted(v.msg) + metapart + seq!['}'];
    let m1 = spec_quoted(key_code) + seq![':'] + spec_quoted(spec_code_token(v.code)) + seq![',']
        + m2;
    assert forall|i: int|
        0 <= i < spec_key_msg().len() implies spec_is_plain_char(#[trigger] spec_key_msg()[i]) by {};
    lemma_escape_plain(spec_key_msg());
    assert(spec_json_head() =~= seq!['{'] + spec_quoted(key_code) + seq![':'] + seq!['"']);
    assert(spec_json_msg_key() =~= seq!['"', ','] + spec_quoted(spec_key_msg()) + seq![':']);
    assert(spec_quoted(spec_code_token(v.code)) =~= seq!['"'] + spec_code_token(v.code) + seq![
        '"',
    ]);
    assert(input =~= seq!['{'] + m1);
    assert(spec_skip_ws(input) == input);
    assert(input[0] == '{');
    assert(input.drop_first() =~= m1);
    assert(m1[0] == '"');
    assert(spec_skip_ws(m1) == m1);
    let a1 = seq![':'] + spec_quoted(spec_code_token(v.code)) + seq![','] + m2;
    assert(m1 =~= spec_quoted(key_code) + a1);
    lemma_parse_quoted(key_code, a1);
    assert(spec_skip_ws(a1) == a1);
    let a3 = seq![','] + m2;
    let a2 = spec_quoted(spec_code_token(v.code)) + a3;
    assert(a1.drop_first() =~= a2);
    assert(a2[0] == '"');
    assert(spec_skip_ws(a2) == a2);
    lemma_parse_quoted(spec_code_token(v.code), a3);
    let acc0 = ErrAccView { code: None, msg: None, meta: None };
    let acc1 = ErrAccView { code: Some(v.code), msg: None, meta: None };
    assert(spec_member_value(key_code, a2, acc0) == Some((acc1, a3)));
    assert(spec_skip_ws(a3) == a3);
    assert(a3[0] == ',');
    assert(a3.drop_first() =~= m2);
    assert(m2[0] == '"');
    assert(spec_skip_ws(m2) == m2);
    lemma_round_trip_msg_member(v);
    assert(spec_parse_error_members(m2, false, acc1) == Some(
        (round_trip_acc(v), Seq::<char>::empty()),
    ));
    assert(spec_parse_error_members(m1, true, acc0) == Some(
        (round_trip_acc(v), Seq::<char>::empty()),
    ));
    assert(spec_skip_ws(Seq::<char>::empty()).len() == 0);
    let out = spec_parse_error(input);
    if v.meta.len() == 0 {
        assert(out matches Some(w) && w =~= v);
    } else {
        assert(out matches Some(w) && w =~= v);
    }
}

/// Writing one more metadata member extends the member list, with a comma
/// when members stand before it.
proof fn lemma_meta_members_snoc(meta: Seq<(Seq<char>, Seq<char>)>, m: (Seq<char>, Seq<char>))
    ensures
        spec_meta_members(meta.push(m)) == spec_meta_members(meta) + (if meta.len() > 0 {
            seq![',']
        } else {
            Seq::<char>::empty()
        }) + spec_quoted(m.0) + seq![':'] + spec_quoted(m.1),
    decreases meta.len(),
{
    if meta.len() == 0 {
        assert(spec_meta_members(meta.push(m)) =~= spec_meta_members(meta) + Seq::<char>::empty()
            + spec_quoted(m.0) + seq![':'] + spec_quoted(m.1));
    } else {
        assert(meta.push(m).drop_first() =~= meta.drop_first().push(m));
        lemma_meta_members_snoc(meta.drop_first(), m);
        assert(spec_meta_members(meta.push(m)) =~= spec_meta_members(meta) + seq![',']
            + spec_quoted(m.0) + seq![':'] + spec_quoted(m.1));
    }
}

} // verus!

//! The source-text transform the protobuf build applies to generated
//! modules: after every line that opens a nested module (`pub mod name {`,
//! under any indentation), an import of the file descriptor set is spliced
//! in so that reflection works inside the nested module.

use vstd::prelude::*;
use vstd::string::{StrSliceExecFns, StringExecFns};
use crate::path_map::spec_str_views;

verus! {

/// Whitespace that may surround a module-opening line.
pub open spec fn spec_line_ws(c: char) -> bool {
    c == ' ' || c == '\t' || c == '\r'
}

/// A character of a module name.
pub open spec fn spec_word_char(c: char) -> bool {
    ('a' <= c && c <= 'z') || ('A' <= c && c <= 'Z') || ('0' <= c && c <= '9') || c == '_'
}

/// The end of the whitespace run starting at `i`.
pub open spec fn spec_ws_end(line: Seq<char>, i: int) -> int
    decreases line.len() - i,
{
    if 0 <= i < line.len() && spec_line_ws(line[i]) {
        spec_ws_end(line, i + 1)
    } else {
        i
    }
}

/// The end of the word run starting at `i`.
pub open spec fn spec_word_end(line: Seq<char>, i: int) -> int
    decreases line.len() - i,
{
    if 0 <= i < line.len() && spec_word_char(line[i]) {
        spec_word_end(line, i + 1)
    } else {
        i
    }
}

/// The text that opens a module declaration.
pub open spec fn spec_mod_intro() -> Seq<char> {
    seq!['p', 'u', 'b', ' ', 'm', 'o', 'd', ' ']
}

/// The indentation width of a line that declares a nested module —
/// optional whitespace, `pub mod`, a name, an opening brace, optional
/// trailing whitespace — or nothing for any other line.
pub open spec fn spec_mod_line_indent(line: Seq<char>) -> Option<int> {
    let i = spec_ws_end(line, 0);
    if i + 8 <= line.len() && line.subrange(i, i + 8) == spec_mod_intro() {
        let j = spec_word_end(line, i + 8);
        if j > i + 8 && j + 2 <= line.len() && line[j] == ' ' && line[j + 1] == '{' && spec_ws_end(
            line,
            j + 2,
        ) == line.len() {
            Some(i)
        } else {
            None
        }
    } else {
        None
    }
}

/// What a line becomes: a module-opening line is followed by an import of
/// the file descriptor set, allowed to go unused; any other line stands
/// alone.
pub open spec fn spec_expanded_lines(line: Seq<char>) -> Seq<Seq<char>> {
    match spec_mod_line_indent(line) {
        Some(i) => seq![
            line,
            "    "@ + line.subrange(0, i) + "#[allow(unused_imports)]"@,
            "    "@ + line.subrange(0, i) + "use super::FILE_DESCRIPTOR_SET_BYTES;"@,
        ],
        None => seq![line],
    }
}

/// The lines of the transformed module source.
pub open spec fn spec_spliced(lines: Seq<Seq<char>>) -> Seq<Seq<char>>
    decreases lines.len(),
{
    if lines.len() == 0 {
        Seq::empty()
    } else {
        spec_spliced(lines.drop_last()) + spec_expanded_lines(lines.last())
    }
}

/// The end of the whitespace run starting at `i`.
fn ws_end(line: &Vec<char>, i: usize) -> (r: usize)
    requires
        i <= line.len(),
    ensures
        i <= r <= line.len(),
        r == spec_ws_end(line@, i as int),
    decreases line.len() - i,
{
    if i < line.len() {
        let c = line[i];
        if c == ' ' || c == '\t' || c == '\r' {
            return ws_end(line, i + 1);
        }
    }
    i
}

/// The end of the word run starting at `i`.
fn word_end(line: &Vec<char>, i: usize) -> (r: usize)
    requires
        i <= line.len(),
    ensures
        i <= r <= line.len(),
        r == spec_word_end(line@, i as int),
    decreases line.len() - i,
{
    if i < line.len() {
        let c = line[i];
        if ('a' <= c && c <= 'z') || ('A' <= c && c <= 'Z') || ('0' <= c && c <= '9') || c == '_' {
            return word_end(line, i + 1);
        }
    }
    i
}

/// The indentation width of a line that declares a nested module, if it is
/// one.
fn mod_line_indent(line: &str) -> (r: Option<usize>)
    ensures
        match r {
            Some(i) => spec_mod_line_indent(line@) == Some(i as int) && i <= line@.len(),
            None => spec_mod_line_indent(line@) is None,
        },
{
    let chars = crate::text::str_to_chars(line);
    let n = chars.len();
    let i = ws_end(&chars, 0);
    if n - i < 8 {
        return None;
    }
    if !(chars[i] == 'p' && chars[i + 1] == 'u' && chars[i + 2] == 'b' && chars[i + 3] == ' '
        && chars[i + 4] == 'm' && chars[i + 5] == 'o' && chars[i + 6] == 'd' && chars[i + 7]
        == ' ') {
        proof {
            assert(chars@.subrange(i as int, i + 8) != spec_mod_intro());
        }
        return None;
    }
    proof {
        assert(chars@.subrange(i as int, i + 8) =~= spec_mod_intro());
    }
    let j = word_end(&chars, i + 8);
    if j > i + 8 && n - j >= 2 && chars[j] == ' ' && chars[j + 1] == '{' && ws_end(&chars, j + 2)
        == n {
        Some(i)
    } else {
        None
    }
}

/// Splices an import of the file descriptor set after every line that opens
/// a nested module, keeping every other line as it stands.
pub fn splice_descriptor_imports(lines: &Vec<String>) -> (r: Vec<String>)
    ensures
        spec_str_views(r@) == spec_spliced(spec_str_views(lines@)),
{
    let mut out: Vec<String> = Vec::new();
    let n = lines.len();
    let mut i: usize = 0;
    while i < n
        invariant
            n == lines.len(),
            i <= n,
            spec_str_views(out@) == spec_spliced(spec_str_views(lines@.subrange(0, i as int))),
        decreases n - i,
    {
        let line = &lines[i];
        out.push(line.clone());
        match mod_line_indent(line.as_str()) {
            Some(ind) => {
                let indent = line.as_str().substring_char(0, ind);
                let mut attr = String::from_str("    ");
                attr.append(indent);
                attr.append("#[allow(unused_imports)]");
                out.push(attr);
                let mut imp = String::from_str("    ");
                imp.append(indent);
                imp.append("use super::FILE_DESCRIPTOR_SET_BYTES;");
                out.push(imp);
            },
            None => {},
        }
        proof {
            let views = spec_str_views(lines@.subrange(0, i + 1));
            assert(views.drop_last() =~= spec_str_views(lines@.subrange(0, i as int)));
            assert(views.last() == lines@[i as int]@);
            assert(spec_str_views(out@) =~= spec_spliced(views));
        }
        i += 1;
    }
    proof {
        assert(lines@.subrange(0, lines@.len() as int) =~= lines@);
    }
    out
}

} // verus!

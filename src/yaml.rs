use vstd::prelude::*;
use vstd::string::StringSliceAdditionalSpecFns;
use crate::error::{ErrorKind, NmError};

verus! {

/// Where a value stands in the document: its line (counted from 0) and the
/// byte columns it spans in that line.
#[derive(Debug, Clone, Copy, PartialEq, Eq, Structural)]
pub struct YamlPosition {
    pub line: usize,
    pub start: usize,
    pub end: usize,
}

impl YamlPosition {
    pub fn new(line: usize, start: usize, end: usize) -> (r: Self)
        ensures
            r == (YamlPosition { line, start, end }),
    {
        YamlPosition { line, start, end }
    }
}

/// A block-style YAML value with the position of each node. Scalars keep
/// their text; reading them as numbers or booleans is left to the caller.
#[derive(Debug, PartialEq, Eq)]
pub enum SpannedValue {
    Null(YamlPosition),
    Scalar(YamlPosition, String),
    Sequence(YamlPosition, Vec<SpannedValue>),
    Mapping(YamlPosition, Vec<SpannedEntry>),
}

/// A key of a mapping, with its position, and its value.
#[derive(Debug, PartialEq, Eq)]
pub struct SpannedEntry {
    pub key: String,
    pub key_pos: YamlPosition,
    pub value: SpannedValue,
}

/// A non-blank line of the document: its number, the column its text starts
/// at, the column past its last non-blank byte, and that text. A sequence
/// item `- x` is held as a line `-` followed by a line `x` indented to the
/// column of `x`.
#[derive(Debug, Clone, PartialEq, Eq)]
pub struct YamlLine {
    pub number: usize,
    pub indent: usize,
    pub end: usize,
    pub text: String,
}

impl SpannedValue {
    pub open spec fn spec_pos(&self) -> YamlPosition {
        match self {
            SpannedValue::Null(p) => *p,
            SpannedValue::Scalar(p, _) => *p,
            SpannedValue::Sequence(p, _) => *p,
            SpannedValue::Mapping(p, _) => *p,
        }
    }

    /// The position of the node.
    pub fn pos(&self) -> (r: YamlPosition)
        ensures
            r == self.spec_pos(),
    {
        match self {
            SpannedValue::Null(p) => *p,
            SpannedValue::Scalar(p, _) => *p,
            SpannedValue::Sequence(p, _) => *p,
            SpannedValue::Mapping(p, _) => *p,
        }
    }
}

fn invalid(msg: &str) -> (e: NmError)
    ensures
        e.kind == ErrorKind::InvalidArgument,
{
    NmError::new(ErrorKind::InvalidArgument, msg.to_owned())
}

/// The text of `s` between byte offsets `from` and `to`; `None` when they do
/// not delimit characters.
fn byte_slice(s: &str, from: usize, to: usize) -> (r: Option<String>)
    ensures
        from > to || to > s.spec_bytes().len() ==> r is None,
{
    if from > to || to > s.len() || !s.is_char_boundary(from) {
        return None;
    }
    let (_, tail) = s.split_at(from);
    if !tail.is_char_boundary(to - from) {
        return None;
    }
    let (mid, _) = tail.split_at(to - from);
    Some(mid.to_owned())
}

pub open spec fn is_blank(c: u8) -> bool {
    c == 0x20 || c == 0x09 || c == 0x0d
}

/// Appends the lines that bytes `start..end` of `content` (one line of the
/// document, without its newline) yield: none when blank, a comment or a
/// document marker.
fn push_line(content: &str, start: usize, end: usize, number: usize, lines: &mut Vec<YamlLine>)
    -> (r: Result<(), NmError>)
    requires
        start <= end <= content.spec_bytes().len(),
    ensures
        r is Ok ==> forall|k: int| 0 <= k < old(lines)@.len() ==> #[trigger] final(lines)@[k] == old(lines)@[k],
        r is Ok ==> final(lines)@.len() >= old(lines)@.len(),
        r is Ok ==> forall|k: int|
            old(lines)@.len() <= k < final(lines)@.len() ==> (#[trigger] final(lines)@[k]).number
                == number && final(lines)@[k].indent < final(lines)@[k].end,
{
    let b = content.as_bytes();
    let mut first: usize = start;
    while first < end && b[first] == 0x20
        invariant
            start <= first <= end,
            end <= b@.len(),
        decreases end - first,
    {
        first += 1;
    }
    let mut last: usize = end;
    while last > first && (b[last - 1] == 0x20 || b[last - 1] == 0x09 || b[last - 1] == 0x0d)
        invariant
            first <= last <= end,
            end <= b@.len(),
        decreases last,
    {
        last -= 1;
    }
    if first == last || b[first] == 0x23 {
        return Ok(());
    }
    if first == start && last - first == 3 && b[first] == 0x2d && b[first + 1] == 0x2d && b[first
        + 2] == 0x2d {
        return Ok(());
    }
    let mut col: usize = first;
    while col < last && b[col] == 0x2d && (col + 1 == last || b[col + 1] == 0x20)
        invariant
            start <= first <= col <= last,
            last <= end <= b@.len(),
            forall|k: int| 0 <= k < old(lines)@.len() ==> #[trigger] lines@[k] == old(lines)@[k],
            lines@.len() >= old(lines)@.len(),
            forall|k: int|
                old(lines)@.len() <= k < lines@.len() ==> (#[trigger] lines@[k]).number == number
                    && lines@[k].indent < lines@[k].end,
        decreases last - col,
    {
        lines.push(
            YamlLine { number, indent: col - start, end: col + 1 - start, text: "-".to_owned() },
        );
        let dash: usize = col;
        col += 1;
        while col < last && b[col] == 0x20
            invariant
                start <= first <= dash < col <= last,
                last <= end <= b@.len(),
            decreases last - col,
        {
            col += 1;
        }
    }
    if col < last {
        match byte_slice(content, col, last) {
            Some(text) => {
                lines.push(YamlLine { number, indent: col - start, end: last - start, text });
            },
            None => {
                return Err(invalid("Invalid UTF-8 boundary in YAML line"));
            },
        }
    }
    Ok(())
}

/// The non-blank lines of the document, sequence items split as `YamlLine`
/// describes.
pub fn yaml_lines(content: &str) -> (r: Result<Vec<YamlLine>, NmError>)
    ensures
        content.spec_bytes().len() == 0 ==> (r matches Ok(ls) && ls@.len() == 0),
        r matches Ok(ls) ==> forall|k: int|
            0 <= k < ls@.len() ==> (#[trigger] ls@[k]).indent < ls@[k].end,
        r matches Ok(ls) ==> forall|k1: int, k2: int|
            0 <= k1 < k2 < ls@.len() ==> (#[trigger] ls@[k1]).number <= (#[trigger] ls@[k2]).number,
{
    let b = content.as_bytes();
    let n = b.len();
    let mut lines: Vec<YamlLine> = Vec::new();
    let mut start: usize = 0;
    let mut number: usize = 0;
    let mut i: usize = 0;
    while i < n
        invariant
            n == b@.len(),
            b@ == content.spec_bytes(),
            start <= i <= n,
            number <= i,
            n == 0 ==> lines@.len() == 0,
            forall|k: int| 0 <= k < lines@.len() ==> (#[trigger] lines@[k]).indent < lines@[k].end,
            forall|k: int| 0 <= k < lines@.len() ==> (#[trigger] lines@[k]).number <= number,
            forall|k1: int, k2: int|
                0 <= k1 < k2 < lines@.len() ==> (#[trigger] lines@[k1]).number <= (#[trigger] lines@[k2]).number,
        decreases n - i,
    {
        if b[i] == 0x0a {
            if let Err(e) = push_line(content, start, i, number, &mut lines) {
                return Err(e);
            }
            start = i + 1;
            number += 1;
        }
        i += 1;
    }
    if start < n {
        if let Err(e) = push_line(content, start, n, number, &mut lines) {
            return Err(e);
        }
    }
    Ok(lines)
}

fn is_dash(line: &YamlLine) -> bool {
    line.text.as_str() == "-"
}

/// Splits `key: value` at its first `: ` (or final `:`): the byte offset of
/// the colon, or `None` for a plain scalar.
fn key_end(text: &str) -> (r: Option<usize>)
    ensures
        r matches Some(k) ==> k < text.spec_bytes().len(),
{
    let b = text.as_bytes();
    let mut k: usize = 0;
    while k < b.len()
        invariant
            b@ == text.spec_bytes(),
            k <= b@.len(),
        decreases b@.len() - k,
    {
        if b[k] == 0x3a && (k + 1 == b.len() || b[k + 1] == 0x20) {
            return Some(k);
        }
        k += 1;
    }
    None
}

/// Whether the line at `j` starts a value nested under a key of a line
/// indented by `indent`: deeper, or a sequence item at the same depth.
fn nested_at(lines: &Vec<YamlLine>, j: usize, indent: usize) -> (r: bool)
    ensures
        r ==> j < lines@.len(),
{
    j < lines.len() && (lines[j].indent > indent || (lines[j].indent == indent && is_dash(
        &lines[j],
    )))
}

/// Parses the node that starts at line `i`, with the lines that belong to it.
/// Returns the node and the index of the first line after it.
pub fn parse_node(lines: &Vec<YamlLine>, i: usize) -> (r: Result<(SpannedValue, usize), NmError>)
    requires
        i < lines@.len(),
    ensures
        r matches Ok((v, j)) ==> i < j <= lines@.len() && v.spec_pos() == (YamlPosition {
            line: lines@[i as int].number,
            start: lines@[i as int].indent,
            end: lines@[i as int].end,
        }),
    decreases lines@.len() - i,
{
    let n = lines.len();
    let first = &lines[i];
    let indent = first.indent;
    let pos = YamlPosition::new(first.number, first.indent, first.end);
    if is_dash(first) {
        let mut items: Vec<SpannedValue> = Vec::new();
        let mut j: usize = i;
        while j < n && lines[j].indent == indent && is_dash(&lines[j])
            invariant
                i <= j <= lines@.len(),
                n == lines@.len(),
            decreases lines@.len() - j,
        {
            let item_pos = YamlPosition::new(lines[j].number, lines[j].indent, lines[j].end);
            if j + 1 < n && lines[j + 1].indent > indent {
                match parse_node(lines, j + 1) {
                    Ok((v, next)) => {
                        items.push(v);
                        j = next;
                    },
                    Err(e) => return Err(e),
                }
            } else {
                items.push(SpannedValue::Null(item_pos));
                j += 1;
            }
        }
        if j == i {
            return Err(invalid("Malformed YAML sequence"));
        }
        return Ok((SpannedValue::Sequence(pos, items), j));
    }
    match key_end(first.text.as_str()) {
        None => Ok((SpannedValue::Scalar(pos, first.text.clone()), i + 1)),
        Some(_) => {
            let mut entries: Vec<SpannedEntry> = Vec::new();
            let mut j: usize = i;
            while j < n && lines[j].indent == indent && !is_dash(&lines[j])
                invariant
                    i <= j <= lines@.len(),
                    n == lines@.len(),
                decreases lines@.len() - j,
            {
                let line = &lines[j];
                let text = line.text.as_str();
                let k = match key_end(text) {
                    Some(k) => k,
                    None => return Err(invalid("Expected a mapping key in YAML")),
                };
                let key = match byte_slice(text, 0, k) {
                    Some(key) => key,
                    None => return Err(invalid("Invalid YAML mapping key")),
                };
                let mut e: usize = 0;
                while e < entries.len()
                    invariant
                        e <= entries@.len(),
                    decreases entries@.len() - e,
                {
                    if entries[e].key == key {
                        return Err(invalid("Duplicate YAML mapping key"));
                    }
                    e += 1;
                }
                let tb = text.as_bytes();
                if line.indent > usize::MAX - tb.len() {
                    return Err(invalid("YAML line too long"));
                }
                let key_pos = YamlPosition::new(line.number, line.indent, line.indent + k);
                let mut v: usize = k + 1;
                while v < tb.len() && tb[v] == 0x20
                    invariant
                        tb@ == text.spec_bytes(),
                        k < v <= tb@.len(),
                    decreases tb@.len() - v,
                {
                    v += 1;
                }
                if v < tb.len() {
                    let value = match byte_slice(text, v, tb.len()) {
                        Some(value) => value,
                        None => return Err(invalid("Invalid YAML mapping value")),
                    };
                    let value_pos = YamlPosition::new(
                        line.number,
                        line.indent + v,
                        line.indent + tb.len(),
                    );
                    entries.push(
                        SpannedEntry { key, key_pos, value: SpannedValue::Scalar(value_pos, value) },
                    );
                    j += 1;
                } else if j + 1 < n && nested_at(lines, j + 1, indent) {
                    match parse_node(lines, j + 1) {
                        Ok((value, next)) => {
                            entries.push(SpannedEntry { key, key_pos, value });
                            j = next;
                        },
                        Err(e) => return Err(e),
                    }
                } else {
                    entries.push(SpannedEntry { key, key_pos, value: SpannedValue::Null(key_pos) });
                    j += 1;
                }
            }
            if j == i {
                return Err(invalid("Malformed YAML mapping"));
            }
            Ok((SpannedValue::Mapping(pos, entries), j))
        },
    }
}

/// Reads a block-style YAML document into a tree of values that carry their
/// positions. Lines that belong to no node (indented less than the first one
/// after it ends) are an invalid argument.
pub fn deserialize_yaml_to_spanned_value(content: &str) -> (r: Result<SpannedValue, NmError>)
    ensures
        content.spec_bytes().len() == 0 ==> r == Ok::<SpannedValue, NmError>(
            SpannedValue::Null(YamlPosition { line: 0, start: 0, end: 0 }),
        ),
{
    let lines = match yaml_lines(content) {
        Ok(l) => l,
        Err(e) => return Err(e),
    };
    if lines.len() == 0 {
        return Ok(SpannedValue::Null(YamlPosition::new(0, 0, 0)));
    }
    match parse_node(&lines, 0) {
        Ok((v, next)) => {
            if next < lines.len() {
                Err(invalid("Unexpected indentation in YAML"))
            } else {
                Ok(v)
            }
        },
        Err(e) => Err(e),
    }
}

} // verus!

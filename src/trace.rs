use vstd::prelude::*;

use crate::text::{contains, has_infix, has_prefix, starts_with, trim, trimmed};

verus! {

/// The shapes of monitor trace lines that the parser tells apart.
pub enum TraceLine {
    /// The header of a call of the member of interest.
    CallStart,
    /// A quoted string argument, with its content.
    Text(String),
    /// An integer argument.
    Integer,
    /// The opening of an array argument.
    ArrayOpen,
    /// The opening of a dictionary entry.
    DictEntry,
    /// Anything else.
    Other,
}

/// The value of a trace line: a `TraceLine` with its text as characters.
pub enum LineShape {
    CallStart,
    Text(Seq<char>),
    Integer,
    ArrayOpen,
    DictEntry,
    Other,
}

impl View for TraceLine {
    type V = LineShape;

    open spec fn view(&self) -> LineShape {
        match self {
            TraceLine::CallStart => LineShape::CallStart,
            TraceLine::Text(v) => LineShape::Text(v@),
            TraceLine::Integer => LineShape::Integer,
            TraceLine::ArrayOpen => LineShape::ArrayOpen,
            TraceLine::DictEntry => LineShape::DictEntry,
            TraceLine::Other => LineShape::Other,
        }
    }
}

/// The opening of a string argument line.
pub open spec fn text_open() -> Seq<char> {
    "string \""@
}

/// A trimmed line that names a method call of the notification member.
pub open spec fn is_call_start(t: Seq<char>) -> bool {
    has_infix(t, "method call"@) && has_infix(t, "Notify"@)
}

/// A trimmed line of the form `string "..."`.
pub open spec fn is_text_arg(t: Seq<char>) -> bool {
    has_prefix(t, text_open()) && t.len() > text_open().len() && t.last() == '"'
}

/// The characters between the quotes of a string argument line.
pub open spec fn text_value(t: Seq<char>) -> Seq<char> {
    t.subrange(text_open().len() as int, t.len() - 1)
}

/// A trimmed line that carries a 32-bit integer argument.
pub open spec fn is_integer_arg(t: Seq<char>) -> bool {
    has_prefix(t, "uint32"@) || has_prefix(t, "int32"@)
}

/// A trimmed line that opens an array argument.
pub open spec fn is_array_open(t: Seq<char>) -> bool {
    has_prefix(t, "array ["@)
}

/// A trimmed line that opens a dictionary entry.
pub open spec fn is_dict_entry(t: Seq<char>) -> bool {
    has_prefix(t, "dict entry("@)
}

/// The shape of a raw trace line, judged on the line without surrounding white
/// space; a call header wins over every other reading.
pub open spec fn line_shape(line: Seq<char>) -> LineShape {
    let t = trimmed(line);
    if is_call_start(t) {
        LineShape::CallStart
    } else if is_text_arg(t) {
        LineShape::Text(text_value(t))
    } else if is_integer_arg(t) {
        LineShape::Integer
    } else if is_array_open(t) {
        LineShape::ArrayOpen
    } else if is_dict_entry(t) {
        LineShape::DictEntry
    } else {
        LineShape::Other
    }
}

/// Classifies one line of the monitor's trace.
pub fn classify_line(line: &str) -> (r: TraceLine)
    ensures
        r@ == line_shape(line@),
{
    let t = trim(line);
    if contains(t, "method call") && contains(t, "Notify") {
        return TraceLine::CallStart;
    }
    if starts_with(t, "string \"") {
        proof {
            reveal_strlit("string \"");
        }
        let n = t.unicode_len();
        if n > 8 && t.get_char(n - 1) == '"' {
            let value = t.substring_char(8, n - 1);
            return TraceLine::Text(String::from_str(value));
        }
    }
    if starts_with(t, "uint32") || starts_with(t, "int32") {
        TraceLine::Integer
    } else if starts_with(t, "array [") {
        TraceLine::ArrayOpen
    } else if starts_with(t, "dict entry(") {
        TraceLine::DictEntry
    } else {
        TraceLine::Other
    }
}

} // verus!

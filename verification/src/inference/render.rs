//! Rendering values as sections of a prompt.
use vstd::prelude::*;

use crate::text::search;
use crate::text::search::contains;

verus! {

/// A text field on one line: its title and its value.
pub open spec fn inline_text(title: Seq<char>, value: Seq<char>) -> Seq<char> {
    title + ": "@ + value + "\n"@
}

/// A text field: nothing where it is empty, one line where it has one, and a
/// section of its own, between `marks`, where it has more.
pub open spec fn field_text(marks: Seq<char>, title: Seq<char>, value: Seq<char>) -> Seq<char> {
    if value.len() == 0 {
        Seq::empty()
    } else if search::has_text(value, "\n"@) {
        "\n"@ + marks + " "@ + title + " "@ + marks + "\n"@ + value + "\n"@
    } else {
        inline_text(title, value)
    }
}

/// A text field whose section is only marked by a comment.
pub open spec fn weak_text(title: Seq<char>, value: Seq<char>) -> Seq<char> {
    if value.len() == 0 {
        Seq::empty()
    } else if search::has_text(value, "\n"@) {
        "\n// "@ + title + "\n"@ + value + "\n"@
    } else {
        inline_text(title, value)
    }
}

/// What is rendered of a value that may be missing.
pub open spec fn opt_field_text(
    marks: Seq<char>,
    title: Seq<char>,
    value: Option<Seq<char>>,
) -> Seq<char> {
    match value {
        Some(v) => field_text(marks, title, v),
        None => Seq::empty(),
    }
}

pub open spec fn opt_weak_text(title: Seq<char>, value: Option<Seq<char>>) -> Seq<char> {
    match value {
        Some(v) => weak_text(title, v),
        None => Seq::empty(),
    }
}

/// A part with fields of its own: nothing, one line, or a section.
pub open spec fn nested_text(marks: Seq<char>, title: Seq<char>, nested: Seq<char>) -> Seq<char> {
    if search::has_text(nested, "\n"@) {
        "\n"@ + marks + " "@ + title + " "@ + marks + "\n"@ + nested
    } else if nested.len() > 0 {
        inline_text(title, nested)
    } else {
        Seq::empty()
    }
}

/// What an optional string holds.
pub open spec fn opt_view(o: Option<String>) -> Option<Seq<char>> {
    match o {
        Some(s) => Some(s@),
        None => None,
    }
}

pub fn inline(title: &str, value: &str) -> (r: String)
    ensures
        r@ == inline_text(title@, value@),
{
    let mut s = title.to_string();
    s.push_str(": ");
    s.push_str(value);
    s.push_str("\n");
    s
}

pub fn field(marks: &str, title: &str, value: &str) -> (r: String)
    ensures
        r@ == field_text(marks@, title@, value@),
{
    if value.is_empty() {
        String::new()
    } else if contains(value, "\n") {
        let mut s = "\n".to_string();
        s.push_str(marks);
        s.push_str(" ");
        s.push_str(title);
        s.push_str(" ");
        s.push_str(marks);
        s.push_str("\n");
        s.push_str(value);
        s.push_str("\n");
        s
    } else {
        inline(title, value)
    }
}

pub fn weak(title: &str, value: &str) -> (r: String)
    ensures
        r@ == weak_text(title@, value@),
{
    if value.is_empty() {
        String::new()
    } else if contains(value, "\n") {
        let mut s = "\n// ".to_string();
        s.push_str(title);
        s.push_str("\n");
        s.push_str(value);
        s.push_str("\n");
        s
    } else {
        inline(title, value)
    }
}

pub fn opt_field(marks: &str, title: &str, value: &Option<String>) -> (r: String)
    ensures
        r@ == opt_field_text(marks@, title@, opt_view(*value)),
{
    match value {
        Some(v) => field(marks, title, v.as_str()),
        None => String::new(),
    }
}

pub fn opt_weak(title: &str, value: &Option<String>) -> (r: String)
    ensures
        r@ == opt_weak_text(title@, opt_view(*value)),
{
    match value {
        Some(v) => weak(title, v.as_str()),
        None => String::new(),
    }
}

pub fn nested(marks: &str, title: &str, inner: &str) -> (r: String)
    ensures
        r@ == nested_text(marks@, title@, inner@),
{
    if contains(inner, "\n") {
        let mut s = "\n".to_string();
        s.push_str(marks);
        s.push_str(" ");
        s.push_str(title);
        s.push_str(" ");
        s.push_str(marks);
        s.push_str("\n");
        s.push_str(inner);
        s
    } else if !inner.is_empty() {
        inline(title, inner)
    } else {
        String::new()
    }
}

} // verus!

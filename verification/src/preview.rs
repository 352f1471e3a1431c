//! The shape of each line of a YAML preview, which the editor colours: blank
//! lines, comments, `key: value` entries, list items, and other text.
use crate::text::{
    chars_of, is_whitespace, is_ws, lemma_trim_start_skip, lines_exec, lines_of, slice_chars,
    str_eq, string_of, trim_start, trim_start_exec,
};
use vstd::prelude::*;

verus! {

/// How a value after a colon reads.
#[derive(PartialEq, Eq, Structural, Clone, Copy, Debug)]
pub enum ValueKind {
    /// Starts with a quote.
    Quoted,
    /// `true` or `false`.
    Flag,
    /// Anything else.
    Text,
}

pub open spec fn value_kind(v: Seq<char>) -> ValueKind {
    if v.len() > 0 && (v[0] == '"' || v[0] == '\'') {
        ValueKind::Quoted
    } else if v == "true"@ || v == "false"@ {
        ValueKind::Flag
    } else {
        ValueKind::Text
    }
}

/// The shape of a line; `leading` is the whitespace it starts with.
pub enum LineShape {
    Blank,
    Comment,
    /// `key:` and, when anything follows the colon, the value without its
    /// leading whitespace.
    Entry { leading: String, key: String, value: Option<String> },
    /// `- text`.
    Item { leading: String, text: String },
    Other { leading: String, text: String },
}

pub enum LineShapeView {
    Blank,
    Comment,
    Entry { leading: Seq<char>, key: Seq<char>, value: Option<Seq<char>> },
    Item { leading: Seq<char>, text: Seq<char> },
    Other { leading: Seq<char>, text: Seq<char> },
}

impl View for LineShape {
    type V = LineShapeView;

    open spec fn view(&self) -> LineShapeView {
        match self {
            LineShape::Blank => LineShapeView::Blank,
            LineShape::Comment => LineShapeView::Comment,
            LineShape::Entry { leading, key, value } => LineShapeView::Entry {
                leading: leading@,
                key: key@,
                value: crate::models::opt_v(*value),
            },
            LineShape::Item { leading, text } => LineShapeView::Item { leading: leading@, text: text@ },
            LineShape::Other { leading, text } => LineShapeView::Other { leading: leading@, text: text@ },
        }
    }
}

/// The position of the first colon.
pub open spec fn first_colon(t: Seq<char>) -> Option<int>
    decreases t.len(),
{
    if t.len() == 0 {
        None
    } else if t[0] == ':' {
        Some(0)
    } else {
        match first_colon(t.drop_first()) {
            Some(i) => Some(i + 1),
            None => None,
        }
    }
}

pub proof fn lemma_first_colon(t: Seq<char>)
    ensures
        match first_colon(t) {
            Some(i) => 0 <= i < t.len() && t[i] == ':' && forall|j: int| 0 <= j < i ==> t[j] != ':',
            None => forall|j: int| 0 <= j < t.len() ==> t[j] != ':',
        },
    decreases t.len(),
{
    if t.len() > 0 && t[0] != ':' {
        lemma_first_colon(t.drop_first());
        assert forall|j: int| 0 < j < t.len() implies t[j] == t.drop_first()[j - 1] by {}
    }
}

/// The shape of a line.
pub open spec fn line_shape(line: Seq<char>) -> LineShapeView {
    let t = trim_start(line);
    let leading = line.subrange(0, line.len() - t.len());
    if t.len() == 0 {
        LineShapeView::Blank
    } else if t[0] == '#' {
        LineShapeView::Comment
    } else {
        match first_colon(t) {
            Some(c) => LineShapeView::Entry {
                leading,
                key: t.subrange(0, c),
                value: if t.len() - c > 1 {
                    Some(trim_start(t.subrange(c + 1, t.len() as int)))
                } else {
                    None
                },
            },
            None => if t.len() >= 2 && t[0] == '-' && t[1] == ' ' {
                LineShapeView::Item { leading, text: t.subrange(2, t.len() as int) }
            } else {
                LineShapeView::Other { leading, text: t }
            },
        }
    }
}

/// How a value reads.
pub fn value_kind_of(v: &str) -> (k: ValueKind)
    ensures
        k == value_kind(v@),
{
    let cs = chars_of(v);
    if cs.len() > 0 && (cs[0] == '"' || cs[0] == '\'') {
        ValueKind::Quoted
    } else if str_eq(v, "true") || str_eq(v, "false") {
        ValueKind::Flag
    } else {
        ValueKind::Text
    }
}

/// The shape of a line.
pub fn line_shape_of(line: &str) -> (r: LineShape)
    ensures
        r@ == line_shape(line@),
{
    let cs = chars_of(line);
    let mut i: usize = 0;
    while i < cs.len() && is_whitespace(cs[i])
        invariant
            0 <= i <= cs@.len(),
            cs@ == line@,
            forall|k: int| 0 <= k < i ==> is_ws(cs@[k]),
        decreases cs@.len() - i,
    {
        i = i + 1;
    }
    let ghost s = line@;
    proof {
        lemma_trim_start_skip(s, i as int);
        let rest = s.subrange(i as int, s.len() as int);
        assert(rest.len() == 0 || !is_ws(rest[0]));
        assert(trim_start(rest) == rest);
    }
    let t = slice_chars(cs.as_slice(), i, cs.len());
    let leading = string_of(slice_chars(cs.as_slice(), 0, i).as_slice());
    assert(t@ == trim_start(s));
    assert(leading@ =~= s.subrange(0, s.len() - trim_start(s).len()));
    if t.len() == 0 {
        return LineShape::Blank;
    }
    if t[0] == '#' {
        return LineShape::Comment;
    }
    let mut c: usize = 0;
    proof {
        lemma_first_colon(t@);
    }
    while c < t.len() && t[c] != ':'
        invariant
            0 <= c <= t@.len(),
            forall|j: int| 0 <= j < c ==> t@[j] != ':',
        decreases t@.len() - c,
    {
        c = c + 1;
    }
    if c < t.len() {
        assert(first_colon(t@) == Some(c as int));
        let key = string_of(slice_chars(t.as_slice(), 0, c).as_slice());
        let value = if t.len() - c > 1 {
            let after = slice_chars(t.as_slice(), c + 1, t.len());
            Some(string_of(trim_start_exec(after.as_slice()).as_slice()))
        } else {
            None
        };
        LineShape::Entry { leading, key, value }
    } else {
        assert(first_colon(t@) is None);
        if t.len() >= 2 && t[0] == '-' && t[1] == ' ' {
            LineShape::Item { leading, text: string_of(slice_chars(t.as_slice(), 2, t.len()).as_slice()) }
        } else {
            LineShape::Other { leading, text: string_of(t.as_slice()) }
        }
    }
}

/// The shape of each line of a text, as `str::lines` splits it.
pub fn preview_lines(text: &str) -> (r: Vec<LineShape>)
    ensures
        r@.len() == lines_of(text@).len(),
        forall|k: int| 0 <= k < r@.len() ==> #[trigger] r@[k]@ == line_shape(lines_of(text@)[k]),
{
    let cs = chars_of(text);
    let ls = lines_exec(cs.as_slice());
    let mut r: Vec<LineShape> = Vec::new();
    let mut i: usize = 0;
    while i < ls.len()
        invariant
            0 <= i <= ls@.len(),
            cs@ == text@,
            ls@.len() == lines_of(text@).len(),
            forall|k: int| 0 <= k < ls@.len() ==> #[trigger] ls@[k]@ == lines_of(text@)[k],
            r@.len() == i,
            forall|k: int| 0 <= k < i ==> #[trigger] r@[k]@ == line_shape(lines_of(text@)[k]),
        decreases ls@.len() - i,
    {
        let line = string_of(ls[i].as_slice());
        assert(line@ == lines_of(text@)[i as int]);
        r.push(line_shape_of(line.as_str()));
        i = i + 1;
    }
    r
}

} // verus!

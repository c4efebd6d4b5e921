use vstd::prelude::*;
use vstd::string::*;

verus! {

/// One field of a record type: its name, its type as written, and whether
/// it carries a documentation companion.
#[derive(Debug, Clone)]
pub struct FieldShape {
    pub name: String,
    pub ty: String,
    pub doc: bool,
}

/// A record type with named fields.
#[derive(Debug, Clone)]
pub struct StructShape {
    pub name: String,
    pub fields: Vec<FieldShape>,
}

/// The history field that holds one field's values over time.
pub open spec fn history_field_line(f: FieldShape) -> Seq<char> {
    "    pub "@ + f.name@ + ": Vec<"@ + f.ty@ + ">,\n"@
}

/// The statement that appends one field's value to its history.
pub open spec fn history_push_line(f: FieldShape) -> Seq<char> {
    "        self."@ + f.name@ + ".push(value."@ + f.name@ + ");\n"@
}

/// The declaration of one field, followed by its documentation companion
/// when it carries one.
pub open spec fn doc_field_lines(f: FieldShape) -> Seq<char> {
    let decl = "    pub "@ + f.name@ + ": "@ + f.ty@ + ",\n"@;
    if f.doc {
        decl + "    pub "@ + f.name@ + "_doc: Option<String>,\n"@
    } else {
        decl
    }
}

/// The kind of line written for each field.
#[derive(Debug, Clone, Copy, PartialEq, Eq, Structural)]
pub enum LineKind {
    /// A vector field of the history companion.
    HistoryField,
    /// A statement of the history companion's `push`.
    HistoryPush,
    /// A field declaration with its documentation companion.
    Documented,
}

/// The lines of kind `which` for each field, in order.
pub open spec fn lines_of(fs: Seq<FieldShape>, which: LineKind) -> Seq<char>
    decreases fs.len(),
{
    if fs.len() == 0 {
        Seq::empty()
    } else {
        lines_of(fs.drop_last(), which) + line_of(fs.last(), which)
    }
}

/// One field's line of the kind selected by `which`.
pub open spec fn line_of(f: FieldShape, which: LineKind) -> Seq<char> {
    match which {
        LineKind::HistoryField => history_field_line(f),
        LineKind::HistoryPush => history_push_line(f),
        LineKind::Documented => doc_field_lines(f),
    }
}

/// The history companion of a record: a type with one vector per field, and
/// a method that appends a record's values.
pub open spec fn history_vec_text(s: StructShape) -> Seq<char> {
    "pub struct "@ + s.name@ + "HistoryVec {\n"@ + lines_of(s.fields@, LineKind::HistoryField) + "}\n\nimpl "@ + s.name@
        + "HistoryVec {\n    pub fn push(&mut self, value: "@ + s.name@ + ") {\n"@ + lines_of(s.fields@, LineKind::HistoryPush) + "    }\n}\n"@
}

/// The record with a documentation companion beside each field that asks
/// for one.
pub open spec fn doc_field_text(s: StructShape) -> Seq<char> {
    "pub struct "@ + s.name@ + " {\n"@ + lines_of(s.fields@, LineKind::Documented) + "}\n"@
}

fn append_line(out: &mut String, f: &FieldShape, which: LineKind)
    ensures
        final(out)@ == old(out)@ + line_of(*f, which),
{
    if which == LineKind::HistoryField {
        out.append("    pub ");
        out.append(f.name.as_str());
        out.append(": Vec<");
        out.append(f.ty.as_str());
        out.append(">,\n");
    } else if which == LineKind::HistoryPush {
        out.append("        self.");
        out.append(f.name.as_str());
        out.append(".push(value.");
        out.append(f.name.as_str());
        out.append(");\n");
    } else {
        out.append("    pub ");
        out.append(f.name.as_str());
        out.append(": ");
        out.append(f.ty.as_str());
        out.append(",\n");
        if f.doc {
            out.append("    pub ");
            out.append(f.name.as_str());
            out.append("_doc: Option<String>,\n");
        }
    }
}

fn append_lines(out: &mut String, fs: &Vec<FieldShape>, which: LineKind)
    ensures
        final(out)@ == old(out)@ + lines_of(fs@, which),
{
    let ghost start = out@;
    let mut i: usize = 0;
    while i < fs.len()
        invariant
            0 <= i <= fs@.len(),
            out@ == start + lines_of(fs@.subrange(0, i as int), which),
        decreases fs@.len() - i,
    {
        append_line(out, &fs[i], which);
        assert(fs@.subrange(0, i + 1).drop_last() =~= fs@.subrange(0, i as int));
        i = i + 1;
    }
    assert(fs@.subrange(0, fs@.len() as int) =~= fs@);
}

/// Writes the history companion of a record: a type named after it with one
/// vector per field, and a `push` that appends a record's values.
pub fn history_vec_derive(input: &StructShape) -> (r: String)
    ensures
        r@ == history_vec_text(*input),
{
    let mut out = String::new();
    out.append("pub struct ");
    out.append(input.name.as_str());
    out.append("HistoryVec {\n");
    append_lines(&mut out, &input.fields, LineKind::HistoryField);
    out.append("}\n\nimpl ");
    out.append(input.name.as_str());
    out.append("HistoryVec {\n    pub fn push(&mut self, value: ");
    out.append(input.name.as_str());
    out.append(") {\n");
    append_lines(&mut out, &input.fields, LineKind::HistoryPush);
    out.append("    }\n}\n");
    out
}

/// Writes a record with an optional documentation string beside each field
/// that asks for one.
pub fn doc_field(input: &StructShape) -> (r: String)
    ensures
        r@ == doc_field_text(*input),
{
    let mut out = String::new();
    out.append("pub struct ");
    out.append(input.name.as_str());
    out.append(" {\n");
    append_lines(&mut out, &input.fields, LineKind::Documented);
    out.append("}\n");
    out
}

} // verus!

//! The renderer: walks a value along the description of its type and writes
//! comments, section headers, blank lines and `key = value` lines.

use vstd::prelude::*;
use vstd::string::StringExecFns;
use crate::descriptor::{
    lines_view, nested_view, SchemaNodeView, TypeDescriptor, TypeDescriptorView,
};
use crate::schema::{shape_depth, Shape};
use crate::text::{join_path, joined_path, same_text};
use crate::value::{entries_view, opt_view, push_value, value_text, Value, ValueView};

verus! {

/// The first `n` lines of a documentation block as comment lines: each line
/// behind a `#`, an empty line as a bare `#`.
pub open spec fn comment_lines(docs: Seq<Seq<char>>, n: nat) -> Seq<char>
    decreases n,
{
    if n == 0 || n > docs.len() {
        Seq::empty()
    } else {
        comment_lines(docs, (n - 1) as nat) + seq!['#'] + docs[n - 1] + seq!['\n']
    }
}

/// A documentation block as comment lines; no documentation gives no text.
pub open spec fn comment_block(docs: Seq<Seq<char>>) -> Seq<char> {
    comment_lines(docs, docs.len())
}

/// The line `key = value`.
pub open spec fn assignment_line(key: Seq<char>, value: ValueView) -> Seq<char> {
    key + " = "@ + value_text(value) + seq!['\n']
}

/// The line `[path]`.
pub open spec fn header_line(path: Seq<char>) -> Seq<char> {
    seq!['['] + path + seq![']', '\n']
}

/// The blank line in front of a section that has to be set apart.
pub open spec fn blank_line(separated: bool) -> Seq<char> {
    if separated {
        seq!['\n']
    } else {
        Seq::empty()
    }
}

/// Whether a value is present and a table.
pub open spec fn is_table(value: Option<ValueView>) -> bool {
    value matches Some(ValueView::Table(_))
}

/// The entries of a value that is a table; no entries for anything else.
pub open spec fn table_entries(value: Option<ValueView>) -> Seq<(Seq<char>, ValueView)> {
    match value {
        Some(ValueView::Table(entries)) => entries,
        _ => Seq::empty(),
    }
}

/// The value of the first entry at or after `from` whose key is `key`.
pub open spec fn lookup_from(entries: Seq<(Seq<char>, ValueView)>, key: Seq<char>, from: nat) -> Option<
    ValueView,
>
    decreases entries.len() - from,
{
    if from >= entries.len() {
        None
    } else if entries[from as int].0 == key {
        Some(entries[from as int].1)
    } else {
        lookup_from(entries, key, from + 1)
    }
}

/// The value of the first entry whose key is `key`.
pub open spec fn lookup(entries: Seq<(Seq<char>, ValueView)>, key: Seq<char>) -> Option<
    ValueView,
> {
    lookup_from(entries, key, 0)
}

/// Whether rendering a field writes at least one section header at the level
/// of the field.
pub open spec fn field_emits_section(shape: Shape, value: Option<ValueView>) -> bool
    decreases shape_depth(shape), 0nat,
{
    match shape {
        Shape::Leaf | Shape::Inline => false,
        Shape::Section => true,
        Shape::Optional(inner) => value is Some && field_emits_section(*inner, value),
        Shape::Mapping(entry) => entries_emit_section(
            table_entries(value),
            table_entries(value).len(),
            *entry,
        ),
    }
}

/// Whether one of the first `n` entries of a keyed collection writes a section
/// header.
pub open spec fn entries_emit_section(
    entries: Seq<(Seq<char>, ValueView)>,
    n: nat,
    shape: Shape,
) -> bool
    decreases shape_depth(shape), n,
{
    if n == 0 || n > entries.len() {
        false
    } else {
        entries_emit_section(entries, (n - 1) as nat, shape) || field_emits_section(
            shape,
            Some(entries[n - 1].1),
        )
    }
}

/// Whether one of the first `n` fields writes a section header.
pub open spec fn fields_emit_section(
    nodes: Seq<SchemaNodeView>,
    n: nat,
    entries: Seq<(Seq<char>, ValueView)>,
) -> bool
    decreases n,
{
    if n == 0 || n > nodes.len() {
        false
    } else {
        fields_emit_section(nodes, (n - 1) as nat, entries) || field_emits_section(
            nodes[n - 1].shape,
            lookup(entries, nodes[n - 1].name),
        )
    }
}

/// The text of one field.
///
/// `name` and `docs` are the field's name and documentation, `nested` the
/// description of the type behind a section, `value` the field's value if it
/// has one, `prefix` the dotted path of the enclosing section, and
/// `separated` says whether a section written now is set apart by a blank
/// line.
///
/// A `Leaf` or `Inline` field is its documentation and one assignment line.
/// An `Optional` field is nothing when absent, else what its inner shape
/// gives. A `Section` is a blank line if set apart, its documentation, the
/// header with its path, and the text of the nested type under that path. A
/// `Mapping` is nothing when empty; else its documentation once and then each
/// entry, in order, as an undocumented field named by its key.
pub open spec fn field_text(
    name: Seq<char>,
    docs: Seq<Seq<char>>,
    shape: Shape,
    nested: Option<TypeDescriptorView>,
    value: Option<ValueView>,
    prefix: Seq<char>,
    separated: bool,
) -> Seq<char>
    decreases nested, shape_depth(shape), 0nat,
{
    match shape {
        Shape::Leaf | Shape::Inline => match value {
            Some(v) => comment_block(docs) + assignment_line(name, v),
            None => Seq::empty(),
        },
        Shape::Optional(inner) => match value {
            Some(_) => field_text(name, docs, *inner, nested, value, prefix, separated),
            None => Seq::empty(),
        },
        Shape::Section => match nested {
            Some(td) => if is_table(value) {
                blank_line(separated) + comment_block(docs) + header_line(join_path(prefix, name))
                    + type_text(td, table_entries(value), join_path(prefix, name))
            } else {
                Seq::empty()
            },
            None => Seq::empty(),
        },
        Shape::Mapping(entry) => if table_entries(value).len() > 0 {
            comment_block(docs) + entries_text(
                table_entries(value),
                table_entries(value).len(),
                *entry,
                nested,
                prefix,
                separated,
            )
        } else {
            Seq::empty()
        },
    }
}

/// The text of the first `n` entries of a keyed collection: each entry is an
/// undocumented field named by its key, and a section is set apart when the
/// collection's field was, or when an earlier entry wrote a section.
pub open spec fn entries_text(
    entries: Seq<(Seq<char>, ValueView)>,
    n: nat,
    shape: Shape,
    nested: Option<TypeDescriptorView>,
    prefix: Seq<char>,
    separated: bool,
) -> Seq<char>
    decreases nested, shape_depth(shape), n,
{
    if n == 0 || n > entries.len() {
        Seq::empty()
    } else {
        entries_text(entries, (n - 1) as nat, shape, nested, prefix, separated) + field_text(
            entries[n - 1].0,
            Seq::empty(),
            shape,
            nested,
            Some(entries[n - 1].1),
            prefix,
            separated || entries_emit_section(entries, (n - 1) as nat, shape),
        )
    }
}

/// The text of a structured value: the documentation of its type as a comment
/// block, then its fields in declaration order. A section among the fields is
/// set apart by a blank line when the type has documentation or an earlier
/// field wrote a section.
pub open spec fn type_text(
    td: TypeDescriptorView,
    entries: Seq<(Seq<char>, ValueView)>,
    prefix: Seq<char>,
) -> Seq<char>
    decreases td, 0nat, 0nat,
{
    comment_block(td.type_documentation) + fields_text(
        td.fields,
        td.fields.len(),
        entries,
        prefix,
        td.type_documentation.len() > 0,
    )
}

/// The text of the first `n` fields of a type; each field takes its value
/// from the first entry under its name.
pub open spec fn fields_text(
    nodes: Seq<SchemaNodeView>,
    n: nat,
    entries: Seq<(Seq<char>, ValueView)>,
    prefix: Seq<char>,
    separated: bool,
) -> Seq<char>
    decreases nodes, 0nat, n,
{
    if n == 0 || n > nodes.len() {
        Seq::empty()
    } else {
        fields_text(nodes, (n - 1) as nat, entries, prefix, separated) + field_text(
            nodes[n - 1].name,
            nodes[n - 1].documentation,
            nodes[n - 1].shape,
            nodes[n - 1].nested,
            lookup(entries, nodes[n - 1].name),
            prefix,
            separated || fields_emit_section(nodes, (n - 1) as nat, entries),
        )
    }
}

/// Whether a field's value fits the field's shape: a `Leaf` or `Inline` field
/// has a value; an `Optional` field is absent or fits its inner shape; a
/// `Section` has a description and a table that fits it; a `Mapping` is a
/// table whose every entry fits the entry shape.
pub open spec fn field_conforms(
    shape: Shape,
    nested: Option<TypeDescriptorView>,
    value: Option<ValueView>,
) -> bool
    decreases nested, shape_depth(shape), 0nat,
{
    match shape {
        Shape::Leaf | Shape::Inline => value is Some,
        Shape::Optional(inner) => value is None || field_conforms(*inner, nested, value),
        Shape::Section => match nested {
            Some(td) => is_table(value) && type_conforms(td, table_entries(value)),
            None => false,
        },
        Shape::Mapping(entry) => is_table(value) && forall|i: int|
            0 <= i < table_entries(value).len() ==> field_conforms(
                *entry,
                nested,
                Some((#[trigger] table_entries(value)[i]).1),
            ),
    }
}

/// Whether the entries of a table fit a type: every field's value, taken from
/// the first entry under the field's name, fits the field's shape.
pub open spec fn type_conforms(td: TypeDescriptorView, entries: Seq<(Seq<char>, ValueView)>) -> bool
    decreases td, 0nat, 0nat,
{
    forall|i: int|
        0 <= i < td.fields.len() ==> field_conforms(
            (#[trigger] td.fields[i]).shape,
            td.fields[i].nested,
            lookup(entries, td.fields[i].name),
        )
}

/// Whether a value can be rendered as a document of a type: it is a table
/// that fits the type.
pub open spec fn document_conforms(td: TypeDescriptorView, value: ValueView) -> bool {
    value is Table && type_conforms(td, value->Table_0)
}

/// The document of a value: the text of the value under the empty path.
pub open spec fn document_text(td: TypeDescriptorView, value: ValueView) -> Seq<char> {
    type_text(td, table_entries(Some(value)), Seq::empty())
}

/// Writes a documentation block as comment lines.
pub fn emit_docs(out: &mut String, docs: &Vec<String>)
    ensures
        final(out)@ == old(out)@ + comment_block(lines_view(*docs)),
{
    let ghost start = out@;
    let mut i: usize = 0;
    while i < docs.len()
        invariant
            i <= docs.len(),
            out@ == start + comment_lines(lines_view(*docs), i as nat),
        decreases docs.len() - i,
    {
        out.push('#');
        out.append(docs[i].as_str());
        out.push('\n');
        i += 1;
    }
}

pub(crate) fn find<'a>(entries: &'a Vec<(String, Value)>, key: &str) -> (found: Option<&'a Value>)
    ensures
        opt_view(found) == lookup(entries_view(*entries), key@),
{
    let mut i: usize = 0;
    while i < entries.len()
        invariant
            i <= entries.len(),
            lookup(entries_view(*entries), key@) == lookup_from(
                entries_view(*entries),
                key@,
                i as nat,
            ),
        decreases entries.len() - i,
    {
        if same_text(entries[i].0.as_str(), key) {
            return Some(&entries[i].1);
        }
        i += 1;
    }
    None
}

pub(crate) fn table_of<'a>(value: Option<&'a Value>) -> (table: Option<&'a Vec<(String, Value)>>)
    ensures
        table is Some == is_table(opt_view(value)),
        table matches Some(entries) ==> table_entries(opt_view(value)) == entries_view(*entries),
        table is None ==> table_entries(opt_view(value)).len() == 0,
{
    match value {
        Some(v) => match v {
            Value::Table(entries) => {
                proof {
                    v.lemma_view_table();
                }
                Some(entries)
            },
            _ => None,
        },
        None => None,
    }
}

pub(crate) fn render_field(
    out: &mut String,
    name: &str,
    docs: &Vec<String>,
    shape: &Shape,
    nested: &Option<TypeDescriptor>,
    value: Option<&Value>,
    prefix: &str,
    separated: bool,
) -> (emitted: bool)
    ensures
        final(out)@ == old(out)@ + field_text(
            name@,
            lines_view(*docs),
            *shape,
            nested_view(*nested),
            opt_view(value),
            prefix@,
            separated,
        ),
        emitted == field_emits_section(*shape, opt_view(value)),
    decreases nested, shape_depth(*shape), 0nat,
{
    let ghost start = out@;
    match shape {
        Shape::Leaf | Shape::Inline => {
            match value {
                Some(v) => {
                    emit_docs(out, docs);
                    out.append(name);
                    out.append(" = ");
                    push_value(out, v);
                    out.push('\n');
                },
                None => {},
            }
            false
        },
        Shape::Optional(inner) => {
            match value {
                Some(_) => render_field(out, name, docs, &**inner, nested, value, prefix, separated),
                None => false,
            }
        },
        Shape::Section => {
            match nested {
                Some(td) => match table_of(value) {
                    Some(entries) => {
                        if separated {
                            out.push('\n');
                        }
                        emit_docs(out, docs);
                        let path = joined_path(prefix, name);
                        out.push('[');
                        out.append(path.as_str());
                        out.push(']');
                        out.push('\n');
                        render_type(out, td, entries, path.as_str());
                    },
                    None => {},
                },
                None => {},
            }
            true
        },
        Shape::Mapping(entry) => {
            match table_of(value) {
                Some(entries) => {
                    if entries.len() > 0 {
                        emit_docs(out, docs);
                        let undocumented: Vec<String> = Vec::new();
                        assert(lines_view(undocumented) =~= Seq::<Seq<char>>::empty());
                        let ghost views = entries_view(*entries);
                        let mut any: bool = false;
                        let mut i: usize = 0;
                        while i < entries.len()
                            invariant
                                i <= entries.len(),
                                *shape == Shape::Mapping(*entry),
                                views == entries_view(*entries),
                                lines_view(undocumented) == Seq::<Seq<char>>::empty(),
                                any == entries_emit_section(views, i as nat, **entry),
                                out@ == start + comment_block(lines_view(*docs)) + entries_text(
                                    views,
                                    i as nat,
                                    **entry,
                                    nested_view(*nested),
                                    prefix@,
                                    separated,
                                ),
                            decreases entries.len() - i,
                        {
                            let emitted = render_field(
                                out,
                                entries[i].0.as_str(),
                                &undocumented,
                                &**entry,
                                nested,
                                Some(&entries[i].1),
                                prefix,
                                separated || any,
                            );
                            any = any || emitted;
                            i += 1;
                        }
                        any
                    } else {
                        assert(!entries_emit_section(table_entries(opt_view(value)), 0, **entry));
                        false
                    }
                },
                None => {
                    assert(!entries_emit_section(table_entries(opt_view(value)), 0, **entry));
                    false
                },
            }
        },
    }
}

pub(crate) fn render_type(out: &mut String, td: &TypeDescriptor, entries: &Vec<(String, Value)>, prefix: &str)
    ensures
        final(out)@ == old(out)@ + type_text(td@, entries_view(*entries), prefix@),
    decreases td, 0nat, 0nat,
{
    let ghost start = out@;
    let ghost views = entries_view(*entries);
    proof {
        td.lemma_view();
    }
    emit_docs(out, &td.type_documentation);
    let documented: bool = td.type_documentation.len() > 0;
    let mut set_apart: bool = documented;
    let mut i: usize = 0;
    while i < td.fields.len()
        invariant
            i <= td.fields.len(),
            views == entries_view(*entries),
            td@.type_documentation == lines_view(td.type_documentation),
            td@.fields.len() == td.fields.len(),
            forall|j: int| 0 <= j < td.fields.len() ==> td@.fields[j] == (#[trigger] td.fields[j])@,
            documented == (td@.type_documentation.len() > 0),
            set_apart == (documented || fields_emit_section(td@.fields, i as nat, views)),
            out@ == start + comment_block(td@.type_documentation) + fields_text(
                td@.fields,
                i as nat,
                views,
                prefix@,
                documented,
            ),
        decreases td.fields.len() - i,
    {
        let node = &td.fields[i];
        proof {
            node.lemma_view();
            assert(td@.fields[i as int] == node@);
        }
        let value = find(entries, node.name.as_str());
        let emitted = render_field(
            out,
            node.name.as_str(),
            &node.documentation,
            &node.shape,
            &node.nested,
            value,
            prefix,
            set_apart,
        );
        set_apart = set_apart || emitted;
        i += 1;
    }
}

} // verus!

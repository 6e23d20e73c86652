//! What holds of every rendering, proved from the definitions of the
//! renderer.

use vstd::prelude::*;
use crate::descriptor::{SchemaNodeView, TypeDescriptor, TypeDescriptorView};
use crate::document::{rendered, RenderError};
use crate::render::{
    assignment_line, blank_line, comment_block, comment_lines, document_conforms,
    document_text, entries_emit_section, entries_text, field_conforms, field_emits_section,
    field_text, fields_emit_section, fields_text, header_line, is_table, lookup, table_entries,
    type_text,
};
use crate::schema::{leads_to_section, shape_depth, Shape};
use crate::text::join_path;
use crate::value::{Value, ValueView};

verus! {

/// The text of a field of a type, with its value taken from `entries`.
pub open spec fn node_text(
    node: SchemaNodeView,
    entries: Seq<(Seq<char>, ValueView)>,
    prefix: Seq<char>,
    separated: bool,
) -> Seq<char> {
    field_text(
        node.name,
        node.documentation,
        node.shape,
        node.nested,
        lookup(entries, node.name),
        prefix,
        separated,
    )
}

/// Whether a field of a type writes a section header.
pub open spec fn node_emits_section(
    node: SchemaNodeView,
    entries: Seq<(Seq<char>, ValueView)>,
) -> bool {
    field_emits_section(node.shape, lookup(entries, node.name))
}

/// A section without the blank line that may stand in front of it: its
/// documentation, its header, and the text of its type under its path.
pub open spec fn section_block(
    name: Seq<char>,
    docs: Seq<Seq<char>>,
    td: TypeDescriptorView,
    entries: Seq<(Seq<char>, ValueView)>,
    prefix: Seq<char>,
) -> Seq<char> {
    comment_block(docs) + header_line(join_path(prefix, name)) + type_text(
        td,
        entries,
        join_path(prefix, name),
    )
}

/// The section block of a field of a type, with its value taken from
/// `entries`.
pub open spec fn node_section_block(
    node: SchemaNodeView,
    entries: Seq<(Seq<char>, ValueView)>,
    prefix: Seq<char>,
) -> Seq<char> {
    section_block(
        node.name,
        node.documentation,
        node.nested->0,
        table_entries(lookup(entries, node.name)),
        prefix,
    )
}

/// Whether a field of a type is a section that can be written: its shape is
/// `Section`, its type is described, and its value is a table.
pub open spec fn is_written_section(
    node: SchemaNodeView,
    entries: Seq<(Seq<char>, ValueView)>,
) -> bool {
    node.shape == Shape::Section && node.nested is Some && is_table(lookup(entries, node.name))
}

/// A description without its field at position `k`.
pub open spec fn without_field(td: TypeDescriptorView, k: int) -> TypeDescriptorView {
    TypeDescriptorView { type_documentation: td.type_documentation, fields: td.fields.remove(k) }
}

/// A description in which the field at position `k` has the shape `shape`.
pub open spec fn with_shape(td: TypeDescriptorView, k: int, shape: Shape) -> TypeDescriptorView {
    TypeDescriptorView {
        type_documentation: td.type_documentation,
        fields: td.fields.update(
            k,
            SchemaNodeView {
                name: td.fields[k].name,
                shape: shape,
                documentation: td.fields[k].documentation,
                nested: td.fields[k].nested,
            },
        ),
    }
}

/// The first `n` entries as assignment lines, in order.
pub open spec fn assignment_lines(entries: Seq<(Seq<char>, ValueView)>, n: nat) -> Seq<char>
    decreases n,
{
    if n == 0 || n > entries.len() {
        Seq::empty()
    } else {
        assignment_lines(entries, (n - 1) as nat) + assignment_line(
            entries[n - 1].0,
            entries[n - 1].1,
        )
    }
}

/// Fields that are written alike, one by one, are written alike together.
pub proof fn fields_written_alike(
    a: Seq<SchemaNodeView>,
    b: Seq<SchemaNodeView>,
    n: nat,
    entries: Seq<(Seq<char>, ValueView)>,
    prefix: Seq<char>,
    separated: bool,
)
    requires
        n <= a.len(),
        n <= b.len(),
        forall|i: int, s: bool|
            0 <= i < n ==> #[trigger] node_text(a[i], entries, prefix, s) == node_text(
                b[i],
                entries,
                prefix,
                s,
            ),
        forall|i: int|
            0 <= i < n ==> #[trigger] node_emits_section(a[i], entries) == node_emits_section(
                b[i],
                entries,
            ),
    ensures
        fields_text(a, n, entries, prefix, separated) == fields_text(
            b,
            n,
            entries,
            prefix,
            separated,
        ),
        fields_emit_section(a, n, entries) == fields_emit_section(b, n, entries),
    decreases n,
{
    if n > 0 {
        let m = (n - 1) as nat;
        fields_written_alike(a, b, m, entries, prefix, separated);
        let s = separated || fields_emit_section(a, m, entries);
        assert(node_text(a[m as int], entries, prefix, s) == node_text(
            b[m as int],
            entries,
            prefix,
            s,
        ));
        assert(node_emits_section(a[m as int], entries) == node_emits_section(
            b[m as int],
            entries,
        ));
    }
}

proof fn fields_before_removed(
    nodes: Seq<SchemaNodeView>,
    k: int,
    n: nat,
    entries: Seq<(Seq<char>, ValueView)>,
    prefix: Seq<char>,
    separated: bool,
)
    requires
        0 <= k < nodes.len(),
        n <= k,
    ensures
        fields_text(nodes.remove(k), n, entries, prefix, separated) == fields_text(
            nodes,
            n,
            entries,
            prefix,
            separated,
        ),
        fields_emit_section(nodes.remove(k), n, entries) == fields_emit_section(
            nodes,
            n,
            entries,
        ),
    decreases n,
{
    if n > 0 {
        fields_before_removed(nodes, k, (n - 1) as nat, entries, prefix, separated);
        assert(nodes.remove(k)[n - 1] == nodes[n - 1]);
    }
}

proof fn fields_after_removed(
    nodes: Seq<SchemaNodeView>,
    k: int,
    n: nat,
    entries: Seq<(Seq<char>, ValueView)>,
    prefix: Seq<char>,
    separated: bool,
)
    requires
        0 <= k < n <= nodes.len(),
        nodes[k].shape is Optional,
        lookup(entries, nodes[k].name) is None,
    ensures
        fields_text(nodes.remove(k), (n - 1) as nat, entries, prefix, separated) == fields_text(
            nodes,
            n,
            entries,
            prefix,
            separated,
        ),
        fields_emit_section(nodes.remove(k), (n - 1) as nat, entries) == fields_emit_section(
            nodes,
            n,
            entries,
        ),
    decreases n,
{
    if n == k + 1 {
        fields_before_removed(nodes, k, k as nat, entries, prefix, separated);
        assert(node_text(
            nodes[k],
            entries,
            prefix,
            separated || fields_emit_section(nodes, k as nat, entries),
        ) == Seq::<char>::empty());
        assert(!node_emits_section(nodes[k], entries));
    } else {
        fields_after_removed(nodes, k, (n - 1) as nat, entries, prefix, separated);
        assert(nodes.remove(k)[n - 2] == nodes[n - 1]);
    }
}

/// An optional field without a value writes nothing and sets nothing apart,
/// and it fits its shape.
pub proof fn absent_optional_writes_nothing(
    name: Seq<char>,
    docs: Seq<Seq<char>>,
    inner: Shape,
    nested: Option<TypeDescriptorView>,
    prefix: Seq<char>,
    separated: bool,
)
    ensures
        field_text(name, docs, Shape::Optional(Box::new(inner)), nested, None, prefix, separated)
            == Seq::<char>::empty(),
        !field_emits_section(Shape::Optional(Box::new(inner)), None),
        field_conforms(Shape::Optional(Box::new(inner)), nested, None),
{
}

/// An optional field without a value leaves no trace: the text of the type is
/// the text of the same type without that field.
pub proof fn absent_optional_leaves_no_trace(
    td: TypeDescriptorView,
    k: int,
    entries: Seq<(Seq<char>, ValueView)>,
    prefix: Seq<char>,
)
    requires
        0 <= k < td.fields.len(),
        td.fields[k].shape is Optional,
        lookup(entries, td.fields[k].name) is None,
    ensures
        type_text(td, entries, prefix) == type_text(without_field(td, k), entries, prefix),
{
    fields_after_removed(
        td.fields,
        k,
        td.fields.len(),
        entries,
        prefix,
        td.type_documentation.len() > 0,
    );
}

/// An optional field with a value is written exactly as its inner shape
/// writes that value, sets apart what the inner shape sets apart, and fits
/// exactly when the value fits the inner shape.
pub proof fn present_optional_is_transparent(
    name: Seq<char>,
    docs: Seq<Seq<char>>,
    inner: Shape,
    nested: Option<TypeDescriptorView>,
    value: ValueView,
    prefix: Seq<char>,
    separated: bool,
)
    ensures
        field_text(
            name,
            docs,
            Shape::Optional(Box::new(inner)),
            nested,
            Some(value),
            prefix,
            separated,
        ) == field_text(name, docs, inner, nested, Some(value), prefix, separated),
        field_emits_section(Shape::Optional(Box::new(inner)), Some(value)) == field_emits_section(
            inner,
            Some(value),
        ),
        field_conforms(Shape::Optional(Box::new(inner)), nested, Some(value)) == field_conforms(
            inner,
            nested,
            Some(value),
        ),
{
}

/// With a value for an optional field, the text of the type is the text of
/// the same type in which the field has its inner shape.
pub proof fn present_optional_renders_as_inner(
    td: TypeDescriptorView,
    k: int,
    entries: Seq<(Seq<char>, ValueView)>,
    prefix: Seq<char>,
)
    requires
        0 <= k < td.fields.len(),
        td.fields[k].shape is Optional,
        lookup(entries, td.fields[k].name) is Some,
    ensures
        type_text(td, entries, prefix) == type_text(
            with_shape(td, k, *td.fields[k].shape->Optional_0),
            entries,
            prefix,
        ),
{
    let inner = *td.fields[k].shape->Optional_0;
    let other = with_shape(td, k, inner);
    let value = lookup(entries, td.fields[k].name)->0;
    assert forall|i: int, s: bool| 0 <= i < td.fields.len() implies #[trigger] node_text(
        td.fields[i],
        entries,
        prefix,
        s,
    ) == node_text(other.fields[i], entries, prefix, s) by {
        if i == k {
            present_optional_is_transparent(
                td.fields[k].name,
                td.fields[k].documentation,
                inner,
                td.fields[k].nested,
                value,
                prefix,
                s,
            );
        }
    }
    assert forall|i: int| 0 <= i < td.fields.len() implies #[trigger] node_emits_section(
        td.fields[i],
        entries,
    ) == node_emits_section(other.fields[i], entries) by {
        if i == k {
            present_optional_is_transparent(
                td.fields[k].name,
                td.fields[k].documentation,
                inner,
                td.fields[k].nested,
                value,
                prefix,
                false,
            );
        }
    }
    fields_written_alike(
        td.fields,
        other.fields,
        td.fields.len(),
        entries,
        prefix,
        td.type_documentation.len() > 0,
    );
}

/// A keyed collection without entries writes nothing, whatever its
/// documentation, and sets nothing apart.
pub proof fn empty_mapping_writes_nothing(
    name: Seq<char>,
    docs: Seq<Seq<char>>,
    entry: Shape,
    nested: Option<TypeDescriptorView>,
    prefix: Seq<char>,
    separated: bool,
)
    ensures
        field_text(
            name,
            docs,
            Shape::Mapping(Box::new(entry)),
            nested,
            Some(ValueView::Table(Seq::empty())),
            prefix,
            separated,
        ) == Seq::<char>::empty(),
        !field_emits_section(
            Shape::Mapping(Box::new(entry)),
            Some(ValueView::Table(Seq::empty())),
        ),
{
    assert(!entries_emit_section(Seq::<(Seq<char>, ValueView)>::empty(), 0, entry));
}

/// A keyed collection with entries writes its documentation once, in front
/// of all entries, and then each entry, in order, as an undocumented field
/// named by its key.
pub proof fn mapping_documents_once(
    name: Seq<char>,
    docs: Seq<Seq<char>>,
    entry: Shape,
    nested: Option<TypeDescriptorView>,
    entries: Seq<(Seq<char>, ValueView)>,
    prefix: Seq<char>,
    separated: bool,
)
    requires
        entries.len() > 0,
    ensures
        field_text(
            name,
            docs,
            Shape::Mapping(Box::new(entry)),
            nested,
            Some(ValueView::Table(entries)),
            prefix,
            separated,
        ) == comment_block(docs) + entries_text(
            entries,
            entries.len(),
            entry,
            nested,
            prefix,
            separated,
        ),
{
}

/// The entries of a keyed collection of leaves are written as one assignment
/// line each, in the order of the entries, without header or comment, and
/// none of them sets anything apart.
pub proof fn leaf_entries_are_lines(
    entries: Seq<(Seq<char>, ValueView)>,
    n: nat,
    shape: Shape,
    nested: Option<TypeDescriptorView>,
    prefix: Seq<char>,
    separated: bool,
)
    requires
        shape == Shape::Leaf || shape == Shape::Inline,
        n <= entries.len(),
    ensures
        entries_text(entries, n, shape, nested, prefix, separated) == assignment_lines(entries, n),
        !entries_emit_section(entries, n, shape),
    decreases n,
{
    if n > 0 {
        leaf_entries_are_lines(entries, (n - 1) as nat, shape, nested, prefix, separated);
        let line = assignment_line(entries[n - 1].0, entries[n - 1].1);
        assert(comment_lines(Seq::<Seq<char>>::empty(), 0) == Seq::<char>::empty());
        assert(comment_block(Seq::<Seq<char>>::empty()) + line == line);
        assert(field_text(
            entries[n - 1].0,
            Seq::empty(),
            shape,
            nested,
            Some(entries[n - 1].1),
            prefix,
            separated || entries_emit_section(entries, (n - 1) as nat, shape),
        ) == comment_block(Seq::<Seq<char>>::empty()) + line);
        assert(!field_emits_section(shape, Some(entries[n - 1].1)));
    }
}

/// The entries of a keyed collection are written in their order: the text of
/// the first `n + 1` entries is the text of the first `n` followed by the
/// text of the entry at position `n`.
pub proof fn entries_are_written_in_order(
    entries: Seq<(Seq<char>, ValueView)>,
    n: nat,
    shape: Shape,
    nested: Option<TypeDescriptorView>,
    prefix: Seq<char>,
    separated: bool,
)
    requires
        n < entries.len(),
    ensures
        entries_text(entries, n + 1, shape, nested, prefix, separated) == entries_text(
            entries,
            n,
            shape,
            nested,
            prefix,
            separated,
        ) + field_text(
            entries[n as int].0,
            Seq::empty(),
            shape,
            nested,
            Some(entries[n as int].1),
            prefix,
            separated || entries_emit_section(entries, n, shape),
        ),
{
}

/// Rendering has no hidden state: any two outcomes of rendering the same
/// content agree, in the text or in the error.
pub proof fn rendering_twice_agrees(
    td: TypeDescriptorView,
    value: ValueView,
    first: Result<String, RenderError>,
    second: Result<String, RenderError>,
)
    requires
        rendered(td, value, first),
        rendered(td, value, second),
    ensures
        match (first, second) {
            (Ok(a), Ok(b)) => a@ == b@,
            (Err(a), Err(b)) => a == b,
            _ => false,
        },
{
}

/// The document depends on the content of the description and of the value
/// alone: descriptions and values with the same views give the same document
/// and fit each other alike.
pub proof fn document_depends_on_content(
    td: TypeDescriptor,
    value: Value,
    other_td: TypeDescriptor,
    other_value: Value,
)
    requires
        td@ == other_td@,
        value@ == other_value@,
    ensures
        document_text(td@, value@) == document_text(other_td@, other_value@),
        document_conforms(td@, value@) == document_conforms(other_td@, other_value@),
{
}

/// A section is written as its block, with a blank line in front exactly when
/// it is set apart.
pub proof fn section_is_blank_line_and_block(
    node: SchemaNodeView,
    entries: Seq<(Seq<char>, ValueView)>,
    prefix: Seq<char>,
    separated: bool,
)
    requires
        is_written_section(node, entries),
    ensures
        node_text(node, entries, prefix, separated) == blank_line(separated) + node_section_block(
            node,
            entries,
            prefix,
        ),
        node_emits_section(node, entries),
{
}

/// Among the fields of a type, a section is set apart by a blank line exactly
/// when the type has documentation or an earlier field wrote a section.
pub proof fn section_is_set_apart(
    td: TypeDescriptorView,
    k: int,
    entries: Seq<(Seq<char>, ValueView)>,
    prefix: Seq<char>,
)
    requires
        0 <= k < td.fields.len(),
        is_written_section(td.fields[k], entries),
    ensures
        fields_text(
            td.fields,
            (k + 1) as nat,
            entries,
            prefix,
            td.type_documentation.len() > 0,
        ) == fields_text(td.fields, k as nat, entries, prefix, td.type_documentation.len() > 0)
            + blank_line(
            td.type_documentation.len() > 0 || fields_emit_section(td.fields, k as nat, entries),
        ) + node_section_block(td.fields[k], entries, prefix),
        fields_emit_section(td.fields, (k + 1) as nat, entries),
{
    section_is_blank_line_and_block(
        td.fields[k],
        entries,
        prefix,
        td.type_documentation.len() > 0 || fields_emit_section(td.fields, k as nat, entries),
    );
}

/// Of two consecutive sections the second stands behind exactly one blank
/// line, with or without documentation on the type.
pub proof fn consecutive_sections_are_separated(
    td: TypeDescriptorView,
    k: int,
    entries: Seq<(Seq<char>, ValueView)>,
    prefix: Seq<char>,
)
    requires
        0 <= k,
        k + 1 < td.fields.len(),
        is_written_section(td.fields[k], entries),
        is_written_section(td.fields[k + 1], entries),
    ensures
        fields_text(
            td.fields,
            (k + 2) as nat,
            entries,
            prefix,
            td.type_documentation.len() > 0,
        ) == fields_text(
            td.fields,
            (k + 1) as nat,
            entries,
            prefix,
            td.type_documentation.len() > 0,
        ) + seq!['\n'] + node_section_block(td.fields[k + 1], entries, prefix),
{
    section_is_set_apart(td, k, entries, prefix);
    section_is_set_apart(td, k + 1, entries, prefix);
}

/// A type of exactly two sections: the first section stands behind a blank
/// line exactly when the type has documentation, and exactly one blank line
/// stands between the two.
pub proof fn two_sections_document(
    td: TypeDescriptorView,
    entries: Seq<(Seq<char>, ValueView)>,
    prefix: Seq<char>,
)
    requires
        td.fields.len() == 2,
        is_written_section(td.fields[0], entries),
        is_written_section(td.fields[1], entries),
    ensures
        type_text(td, entries, prefix) == comment_block(td.type_documentation) + blank_line(
            td.type_documentation.len() > 0,
        ) + node_section_block(td.fields[0], entries, prefix) + seq!['\n'] + node_section_block(
            td.fields[1],
            entries,
            prefix,
        ),
{
    let documented = td.type_documentation.len() > 0;
    section_is_set_apart(td, 0, entries, prefix);
    consecutive_sections_are_separated(td, 0, entries, prefix);
    assert(fields_text(td.fields, 0, entries, prefix, documented) == Seq::<char>::empty());
    assert(!fields_emit_section(td.fields, 0, entries));
}

/// A field whose shape does not lead to a section never stands behind a blank
/// line: it is written the same whether or not sections are set apart, and it
/// sets nothing apart itself.
pub proof fn flat_field_ignores_separation(
    name: Seq<char>,
    docs: Seq<Seq<char>>,
    shape: Shape,
    nested: Option<TypeDescriptorView>,
    value: Option<ValueView>,
    prefix: Seq<char>,
)
    requires
        !leads_to_section(shape),
    ensures
        field_text(name, docs, shape, nested, value, prefix, true) == field_text(
            name,
            docs,
            shape,
            nested,
            value,
            prefix,
            false,
        ),
        !field_emits_section(shape, value),
    decreases shape_depth(shape), 0nat,
{
    match shape {
        Shape::Optional(inner) => {
            flat_field_ignores_separation(name, docs, *inner, nested, value, prefix);
        },
        Shape::Mapping(entry) => {
            flat_entries_ignore_separation(
                table_entries(value),
                table_entries(value).len(),
                *entry,
                nested,
                prefix,
            );
        },
        _ => {},
    }
}

/// The entries of a keyed collection whose entry shape does not lead to a
/// section are written the same whether or not sections are set apart.
pub proof fn flat_entries_ignore_separation(
    entries: Seq<(Seq<char>, ValueView)>,
    n: nat,
    shape: Shape,
    nested: Option<TypeDescriptorView>,
    prefix: Seq<char>,
)
    requires
        !leads_to_section(shape),
        n <= entries.len(),
    ensures
        entries_text(entries, n, shape, nested, prefix, true) == entries_text(
            entries,
            n,
            shape,
            nested,
            prefix,
            false,
        ),
        !entries_emit_section(entries, n, shape),
    decreases shape_depth(shape), n,
{
    if n > 0 {
        flat_entries_ignore_separation(entries, (n - 1) as nat, shape, nested, prefix);
        flat_field_ignores_separation(
            entries[n - 1].0,
            Seq::empty(),
            shape,
            nested,
            Some(entries[n - 1].1),
            prefix,
        );
    }
}

} // verus!

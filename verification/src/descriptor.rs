//! Descriptions of structured types: the documentation of a type and its
//! fields in declaration order, each with its shape and documentation.

use vstd::prelude::*;
use crate::schema::{
    classify, classify_spec, leads_to_section, map_value, wrapped_shape, FieldType,
    FieldTypeView, Shape,
};

verus! {

/// The description of one field.
#[derive(Debug, PartialEq, Eq)]
pub struct SchemaNode {
    /// The name of the field.
    pub name: String,
    /// How the field is rendered.
    pub shape: Shape,
    /// The documentation lines of the field, in order; none at all is
    /// different from one empty line.
    pub documentation: Vec<String>,
    /// The description of the structured type behind the field, for a shape
    /// that leads to a section.
    pub nested: Option<TypeDescriptor>,
}

/// The description of a structured type.
#[derive(Debug, PartialEq, Eq)]
pub struct TypeDescriptor {
    /// The documentation lines of the type, in order.
    pub type_documentation: Vec<String>,
    /// The fields in declaration order, which is the order of emission.
    pub fields: Vec<SchemaNode>,
}

/// The mathematical content of a `SchemaNode`.
pub ghost struct SchemaNodeView {
    pub name: Seq<char>,
    pub shape: Shape,
    pub documentation: Seq<Seq<char>>,
    pub nested: Option<TypeDescriptorView>,
}

/// The mathematical content of a `TypeDescriptor`.
pub ghost struct TypeDescriptorView {
    pub type_documentation: Seq<Seq<char>>,
    pub fields: Seq<SchemaNodeView>,
}

/// The lines of a documentation block as sequences of characters.
pub open spec fn lines_view(lines: Vec<String>) -> Seq<Seq<char>> {
    Seq::new(lines.len() as nat, |i: int| lines[i]@)
}

impl View for SchemaNode {
    type V = SchemaNodeView;

    open spec fn view(&self) -> SchemaNodeView
        decreases self,
    {
        SchemaNodeView {
            name: self.name@,
            shape: self.shape,
            documentation: lines_view(self.documentation),
            nested: match self.nested {
                Some(td) => Some(td@),
                None => None,
            },
        }
    }
}

impl View for TypeDescriptor {
    type V = TypeDescriptorView;

    open spec fn view(&self) -> TypeDescriptorView
        decreases self,
    {
        TypeDescriptorView {
            type_documentation: lines_view(self.type_documentation),
            fields: Seq::new(
                self.fields.len() as nat,
                |i: int|
                    if 0 <= i < self.fields.len() {
                        self.fields[i]@
                    } else {
                        arbitrary()
                    },
            ),
        }
    }
}

/// The view of an optional description.
pub open spec fn nested_view(nested: Option<TypeDescriptor>) -> Option<TypeDescriptorView> {
    match nested {
        Some(td) => Some(td@),
        None => None,
    }
}

impl SchemaNode {
    /// The view of a node holds the views of its parts.
    pub proof fn lemma_view(self)
        ensures
            self@.name == self.name@,
            self@.shape == self.shape,
            self@.documentation == lines_view(self.documentation),
            self@.nested == nested_view(self.nested),
    {
        reveal_with_fuel(<SchemaNode as View>::view, 2);
    }
}

impl TypeDescriptor {
    /// The view of a description holds the views of its fields, in order.
    pub proof fn lemma_view(self)
        ensures
            self@.type_documentation == lines_view(self.type_documentation),
            self@.fields.len() == self.fields.len(),
            forall|j: int|
                0 <= j < self.fields.len() ==> self@.fields[j] == (#[trigger] self.fields[j])@,
    {
        reveal_with_fuel(<TypeDescriptor as View>::view, 2);
    }
}

/// A node is well formed when a shape that leads to a section comes with the
/// description of that section's type, itself well formed.
pub open spec fn node_wf(node: SchemaNodeView) -> bool
    decreases node,
{
    leads_to_section(node.shape) ==> match node.nested {
        Some(td) => descriptor_wf(td),
        None => false,
    }
}

/// A description is well formed when all its fields are.
pub open spec fn descriptor_wf(td: TypeDescriptorView) -> bool
    decreases td,
{
    forall|i: int| 0 <= i < td.fields.len() ==> node_wf(#[trigger] td.fields[i])
}

/// An optional description is well formed when it is absent or well formed.
pub open spec fn nested_wf(nested: Option<TypeDescriptorView>) -> bool {
    match nested {
        Some(td) => descriptor_wf(td),
        None => true,
    }
}

fn shape_leads_to_section(shape: &Shape) -> (leads: bool)
    ensures
        leads == leads_to_section(*shape),
    decreases shape,
{
    match shape {
        Shape::Section => true,
        Shape::Optional(inner) => shape_leads_to_section(inner),
        Shape::Mapping(inner) => shape_leads_to_section(inner),
        _ => false,
    }
}

impl SchemaNode {
    /// Whether the node is well formed.
    pub fn is_well_formed(&self) -> (ok: bool)
        ensures
            ok == node_wf(self@),
        decreases self,
    {
        proof {
            self.lemma_view();
        }
        if shape_leads_to_section(&self.shape) {
            match &self.nested {
                Some(td) => td.is_well_formed(),
                None => false,
            }
        } else {
            true
        }
    }
}

impl TypeDescriptor {
    /// Whether the description is well formed.
    pub fn is_well_formed(&self) -> (ok: bool)
        ensures
            ok == descriptor_wf(self@),
        decreases self,
    {
        proof {
            self.lemma_view();
        }
        let mut i: usize = 0;
        while i < self.fields.len()
            invariant
                i <= self.fields.len(),
                self@.fields.len() == self.fields.len(),
                forall|j: int|
                    0 <= j < self.fields.len() ==> self@.fields[j] == (#[trigger] self.fields[j])@,
                forall|j: int| 0 <= j < i ==> node_wf(#[trigger] self@.fields[j]),
            decreases self.fields.len() - i,
        {
            if !self.fields[i].is_well_formed() {
                assert(!node_wf(self@.fields[i as int]));
                return false;
            }
            i += 1;
        }
        true
    }
}

/// The declaration of one field of a structured type.
#[derive(Debug, PartialEq, Eq)]
pub struct FieldDecl {
    /// The name of the field.
    pub name: String,
    /// The declared type.
    pub ty: FieldType,
    /// The documentation lines of the field, in order.
    pub documentation: Vec<String>,
    /// Whether the field is marked to be rendered on one line.
    pub inline: bool,
    /// The description of the field's type, where that type is itself a
    /// described structured type.
    pub nested: Option<TypeDescriptor>,
}

/// The declaration of a structured type with named fields.
#[derive(Debug, PartialEq, Eq)]
pub struct StructDecl {
    /// The documentation lines of the type, in order.
    pub documentation: Vec<String>,
    /// The fields in declaration order.
    pub fields: Vec<FieldDecl>,
}

/// The mathematical content of a `FieldDecl`.
pub ghost struct FieldDeclView {
    pub name: Seq<char>,
    pub ty: FieldTypeView,
    pub documentation: Seq<Seq<char>>,
    pub inline: bool,
    pub nested: Option<TypeDescriptorView>,
}

/// The mathematical content of a `StructDecl`.
pub ghost struct StructDeclView {
    pub documentation: Seq<Seq<char>>,
    pub fields: Seq<FieldDeclView>,
}

impl View for FieldDecl {
    type V = FieldDeclView;

    open spec fn view(&self) -> FieldDeclView {
        FieldDeclView {
            name: self.name@,
            ty: self.ty@,
            documentation: lines_view(self.documentation),
            inline: self.inline,
            nested: nested_view(self.nested),
        }
    }
}

impl View for StructDecl {
    type V = StructDeclView;

    open spec fn view(&self) -> StructDeclView {
        StructDeclView {
            documentation: lines_view(self.documentation),
            fields: Seq::new(self.fields.len() as nat, |i: int| self.fields[i]@),
        }
    }
}

/// Why a declaration has no description.
#[derive(Debug, PartialEq, Eq)]
pub enum SchemaError {
    /// The field at this position is a section, and the description of its
    /// type is missing.
    MissingDescriptor { field: usize },
}

/// Whether a declared field is a section whose type has no description.
pub open spec fn lacks_descriptor(decl: FieldDeclView) -> bool {
    classify_spec(decl.ty, decl.inline) == Shape::Section && decl.nested is None
}

/// The node that describes a declared field: its shape is decided from the
/// declared type and the inline marker, and it keeps the description of its
/// type only where it is a section.
pub open spec fn derived_node(decl: FieldDeclView) -> SchemaNodeView {
    let shape = classify_spec(decl.ty, decl.inline);
    SchemaNodeView {
        name: decl.name,
        shape: shape,
        documentation: decl.documentation,
        nested: if shape == Shape::Section {
            decl.nested
        } else {
            None
        },
    }
}

/// The description of a declared type: its documentation, and one node for
/// each field, in declaration order.
pub open spec fn derived(decl: StructDeclView) -> TypeDescriptorView {
    TypeDescriptorView {
        type_documentation: decl.documentation,
        fields: Seq::new(decl.fields.len(), |i: int| derived_node(decl.fields[i])),
    }
}

/// A wrapped shape never leads to a section.
pub proof fn lemma_wrapped_shape_is_flat(ty: FieldTypeView)
    ensures
        !leads_to_section(wrapped_shape(ty)),
    decreases ty,
{
    match map_value(ty) {
        Some(value) => {
            lemma_wrapped_shape_is_flat(value);
        },
        None => {},
    }
}

/// Among the shapes that classification gives, only `Section` itself leads to
/// a section.
pub proof fn lemma_classified_section(ty: FieldTypeView, inline: bool)
    ensures
        leads_to_section(classify_spec(ty, inline)) <==> classify_spec(ty, inline)
            == Shape::Section,
{
    if !inline {
        if crate::schema::option_inner(ty) is Some {
            lemma_wrapped_shape_is_flat(crate::schema::option_inner(ty)->0);
        } else if map_value(ty) is Some {
            lemma_wrapped_shape_is_flat(map_value(ty)->0);
        }
    }
}

/// Derives the description of a structured type from its declaration.
///
/// Every field is classified from its declared type and inline marker. The
/// result is an error exactly when some field is a section whose type has no
/// description; the error names the first such field. The derived
/// description is well formed as soon as the descriptions handed in for its
/// sections are.
pub fn derive_toml_comment(input: StructDecl) -> (outcome: Result<TypeDescriptor, SchemaError>)
    ensures
        match outcome {
            Ok(td) => {
                &&& forall|i: int|
                    0 <= i < input@.fields.len() ==> !lacks_descriptor(#[trigger] input@.fields[i])
                &&& td@ == derived(input@)
                &&& (forall|i: int|
                    0 <= i < input@.fields.len() ==> nested_wf(
                        (#[trigger] input@.fields[i]).nested,
                    )) ==> descriptor_wf(td@)
            },
            Err(SchemaError::MissingDescriptor { field }) => {
                &&& field < input@.fields.len()
                &&& lacks_descriptor(input@.fields[field as int])
                &&& forall|i: int| 0 <= i < field ==> !lacks_descriptor(#[trigger] input@.fields[i])
            },
        },
{
    let ghost decl = input@;
    let StructDecl { documentation, fields } = input;
    let ghost decls = fields@;
    assert(decl.fields.len() == decls.len());
    assert(forall|j: int| 0 <= j < decls.len() ==> decl.fields[j] == (#[trigger] decls[j])@);
    let mut nodes: Vec<SchemaNode> = Vec::new();
    let mut index: usize = 0;
    for field in it: fields.into_iter()
        invariant
            it.seq() == decls,
            decl == input@,
            decls.len() <= usize::MAX,
            decl.fields.len() == decls.len(),
            forall|j: int| 0 <= j < decls.len() ==> decl.fields[j] == (#[trigger] decls[j])@,
            index == it.index(),
            nodes.len() == index,
            forall|j: int| 0 <= j < index ==> !lacks_descriptor(#[trigger] decl.fields[j]),
            forall|j: int| 0 <= j < index ==> (#[trigger] nodes[j])@ == derived_node(decl.fields[j]),
    {
        let FieldDecl { name, ty, documentation, inline, nested } = field;
        let shape = classify(&ty, inline);
        let section: bool = matches!(shape, Shape::Section);
        if section && nested.is_none() {
            return Err(SchemaError::MissingDescriptor { field: index });
        }
        let kept: Option<TypeDescriptor> = if section {
            nested
        } else {
            None
        };
        let node = SchemaNode { name, shape, documentation, nested: kept };
        proof {
            node.lemma_view();
        }
        nodes.push(node);
        index += 1;
    }
    let td = TypeDescriptor { type_documentation: documentation, fields: nodes };
    proof {
        td.lemma_view();
        assert(td@.fields =~= derived(decl).fields);
        if forall|i: int|
            0 <= i < decl.fields.len() ==> nested_wf((#[trigger] decl.fields[i]).nested) {
            assert forall|i: int| 0 <= i < td@.fields.len() implies node_wf(
                #[trigger] td@.fields[i],
            ) by {
                lemma_classified_section(decl.fields[i].ty, decl.fields[i].inline);
            }
        }
    }
    Ok(td)
}

} // verus!

//! The schema: the shape of each field, decided from its declared type, and
//! the description of a structured type that the renderer walks.

use vstd::prelude::*;
use crate::text::same_text;

verus! {

/// How a field is rendered.
#[derive(Debug, PartialEq, Eq)]
pub enum Shape {
    /// One `key = value` line.
    Leaf,
    /// A `[path]` block holding the fields of a structured type.
    Section,
    /// A field that may be absent; when present it is rendered as the inner
    /// shape says.
    Optional(Box<Shape>),
    /// A structured value forced onto one `key = value` line.
    Inline,
    /// A keyed collection; each entry is rendered as the inner shape says.
    Mapping(Box<Shape>),
}

/// How many `Optional` and `Mapping` layers wrap the innermost shape.
pub open spec fn shape_depth(shape: Shape) -> nat
    decreases shape,
{
    match shape {
        Shape::Optional(inner) => 1 + shape_depth(*inner),
        Shape::Mapping(inner) => 1 + shape_depth(*inner),
        _ => 0,
    }
}

/// Whether the innermost shape is `Section`.
pub open spec fn leads_to_section(shape: Shape) -> bool
    decreases shape,
{
    match shape {
        Shape::Section => true,
        Shape::Optional(inner) => leads_to_section(*inner),
        Shape::Mapping(inner) => leads_to_section(*inner),
        _ => false,
    }
}

/// The declared type of a field, as far as its shape depends on it.
#[derive(Debug, PartialEq, Eq)]
pub enum FieldType {
    /// A type written as a path: the name of its last segment and that
    /// segment's generic arguments, in order.
    Path { name: String, args: Vec<FieldType> },
    /// Any other type.
    Other,
}

/// The mathematical content of a `FieldType`.
pub ghost enum FieldTypeView {
    Path { name: Seq<char>, args: Seq<FieldTypeView> },
    Other,
}

impl View for FieldType {
    type V = FieldTypeView;

    open spec fn view(&self) -> FieldTypeView
        decreases self,
    {
        match self {
            FieldType::Path { name, args } => FieldTypeView::Path {
                name: name@,
                args: Seq::new(
                    args.len() as nat,
                    |i: int|
                        if 0 <= i < args.len() {
                            args[i]@
                        } else {
                            arbitrary()
                        },
                ),
            },
            FieldType::Other => FieldTypeView::Other,
        }
    }
}

impl FieldType {
    /// The view of a path type holds the views of its arguments, in order.
    pub proof fn lemma_view_args(self)
        requires
            self is Path,
        ensures
            self@ is Path,
            self@->name == self->name@,
            self@->args.len() == self->args.len(),
            forall|j: int|
                0 <= j < self->args.len() ==> self@->args[j] == (#[trigger] self->args[j])@,
    {
        reveal_with_fuel(<FieldType as View>::view, 2);
    }
}

/// The names of the scalar types: the truth type, the integer widths, the two
/// floating-point widths and the text type.
pub open spec fn is_scalar_name(name: Seq<char>) -> bool {
    ||| name == "bool"@
    ||| name == "u8"@
    ||| name == "u16"@
    ||| name == "u32"@
    ||| name == "u64"@
    ||| name == "u128"@
    ||| name == "i8"@
    ||| name == "i16"@
    ||| name == "i32"@
    ||| name == "i64"@
    ||| name == "i128"@
    ||| name == "f32"@
    ||| name == "f64"@
    ||| name == "usize"@
    ||| name == "isize"@
    ||| name == "String"@
}

/// The names under which a keyed collection is recognised.
pub open spec fn is_map_name(name: Seq<char>) -> bool {
    ||| name == "HashMap"@
    ||| name == "BTreeMap"@
    ||| name == "IndexMap"@
}

/// Whether a type is the text type, written without generic arguments.
pub open spec fn is_text_type(ty: FieldTypeView) -> bool {
    ty matches FieldTypeView::Path { name, args } && name == "String"@ && args.len() == 0
}

/// The `T` of `Option<T>`, for a type of that form.
pub open spec fn option_inner(ty: FieldTypeView) -> Option<FieldTypeView> {
    match ty {
        FieldTypeView::Path { name, args } => if name == "Option"@ && args.len() == 1 {
            Some(args[0])
        } else {
            None
        },
        FieldTypeView::Other => None,
    }
}

/// The `V` of a keyed collection from text to `V`, for a type of that form.
pub open spec fn map_value(ty: FieldTypeView) -> Option<FieldTypeView> {
    match ty {
        FieldTypeView::Path { name, args } => if is_map_name(name) && args.len() == 2
            && is_text_type(args[0]) {
            Some(args[1])
        } else {
            None
        },
        FieldTypeView::Other => None,
    }
}

/// Whether a type is a named structured type: a path without generic
/// arguments whose name is not a scalar's.
pub open spec fn is_section(ty: FieldTypeView) -> bool {
    ty matches FieldTypeView::Path { name, args } && args.len() == 0 && !is_scalar_name(name)
}

/// The shape of a type that stands inside `Option` or as the value type of a
/// keyed collection: a keyed collection from text is a `Mapping` of the shape
/// of its values, and every other type is a `Leaf`. A wrapped type is never a
/// `Section`.
pub open spec fn wrapped_shape(ty: FieldTypeView) -> Shape
    decreases ty,
{
    match map_value(ty) {
        Some(value) => Shape::Mapping(Box::new(wrapped_shape(value))),
        None => Shape::Leaf,
    }
}

/// The shape of a field, from its declared type and its inline marker. In
/// order: a marked field is `Inline` whatever its type; `Option<T>` is
/// `Optional` of the wrapped shape of `T`; a keyed collection from text is a
/// `Mapping` of the wrapped shape of its value type; a scalar is a `Leaf`; any
/// other path without generic arguments is a `Section`; everything else is a
/// `Leaf`.
pub open spec fn classify_spec(ty: FieldTypeView, inline: bool) -> Shape {
    if inline {
        Shape::Inline
    } else if option_inner(ty) is Some {
        Shape::Optional(Box::new(wrapped_shape(option_inner(ty)->0)))
    } else if map_value(ty) is Some {
        Shape::Mapping(Box::new(wrapped_shape(map_value(ty)->0)))
    } else if is_section(ty) {
        Shape::Section
    } else {
        Shape::Leaf
    }
}

fn scalar_name(name: &str) -> (scalar: bool)
    ensures
        scalar == is_scalar_name(name@),
{
    same_text(name, "bool") || same_text(name, "u8") || same_text(name, "u16") || same_text(
        name,
        "u32",
    ) || same_text(name, "u64") || same_text(name, "u128") || same_text(name, "i8") || same_text(
        name,
        "i16",
    ) || same_text(name, "i32") || same_text(name, "i64") || same_text(name, "i128") || same_text(
        name,
        "f32",
    ) || same_text(name, "f64") || same_text(name, "usize") || same_text(name, "isize")
        || same_text(name, "String")
}

fn map_name(name: &str) -> (map: bool)
    ensures
        map == is_map_name(name@),
{
    same_text(name, "HashMap") || same_text(name, "BTreeMap") || same_text(name, "IndexMap")
}

fn text_type(ty: &FieldType) -> (text: bool)
    ensures
        text == is_text_type(ty@),
{
    match ty {
        FieldType::Path { name, args } => {
            proof {
                ty.lemma_view_args();
            }
            args.len() == 0 && same_text(name.as_str(), "String")
        },
        FieldType::Other => false,
    }
}

fn option_argument(ty: &FieldType) -> (inner: Option<&FieldType>)
    ensures
        match inner {
            Some(t) => option_inner(ty@) == Some(t@) && decreases_to!(ty => t),
            None => option_inner(ty@) is None,
        },
{
    match ty {
        FieldType::Path { name, args } => {
            proof {
                ty.lemma_view_args();
            }
            if args.len() == 1 && same_text(name.as_str(), "Option") {
                Some(&args[0])
            } else {
                None
            }
        },
        FieldType::Other => None,
    }
}

fn map_argument(ty: &FieldType) -> (value: Option<&FieldType>)
    ensures
        match value {
            Some(t) => map_value(ty@) == Some(t@) && decreases_to!(ty => t),
            None => map_value(ty@) is None,
        },
{
    match ty {
        FieldType::Path { name, args } => {
            proof {
                ty.lemma_view_args();
            }
            if args.len() == 2 && map_name(name.as_str()) && text_type(&args[0]) {
                Some(&args[1])
            } else {
                None
            }
        },
        FieldType::Other => None,
    }
}

fn wrapped(ty: &FieldType) -> (shape: Shape)
    ensures
        shape == wrapped_shape(ty@),
    decreases ty,
{
    match map_argument(ty) {
        Some(value) => Shape::Mapping(Box::new(wrapped(value))),
        None => Shape::Leaf,
    }
}

/// Whether a field of this type is a section when it carries no inline
/// marker: the type is a path without generic arguments and its name is not a
/// scalar's.
pub fn is_section_type(ty: &FieldType) -> (section: bool)
    ensures
        section == is_section(ty@),
        section == (classify_spec(ty@, false) == Shape::Section),
{
    match ty {
        FieldType::Path { name, args } => {
            proof {
                ty.lemma_view_args();
            }
            args.len() == 0 && !scalar_name(name.as_str())
        },
        FieldType::Other => false,
    }
}

/// Whether a type has the form `Option<T>`.
pub fn is_option_type(ty: &FieldType) -> (optional: bool)
    ensures
        optional == option_inner(ty@) is Some,
        optional == (classify_spec(ty@, false) is Optional),
{
    option_argument(ty).is_some()
}

/// Decides the shape of a field from its declared type and its inline marker.
pub fn classify(ty: &FieldType, inline: bool) -> (shape: Shape)
    ensures
        shape == classify_spec(ty@, inline),
{
    if inline {
        return Shape::Inline;
    }
    match option_argument(ty) {
        Some(inner) => Shape::Optional(Box::new(wrapped(inner))),
        None => match map_argument(ty) {
            Some(value) => Shape::Mapping(Box::new(wrapped(value))),
            None => if is_section_type(ty) {
                Shape::Section
            } else {
                Shape::Leaf
            },
        },
    }
}

} // verus!

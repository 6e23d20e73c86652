//! Whole documents: checking that a value fits a description, and rendering
//! it all or nothing.

use vstd::prelude::*;
use crate::descriptor::{descriptor_wf, nested_view, TypeDescriptor, TypeDescriptorView};
use crate::render::{
    document_conforms, document_text, field_conforms, find, render_type, table_entries, table_of,
    type_conforms, type_text,
};
use crate::schema::{shape_depth, Shape};
use crate::value::{entries_view, opt_view, Value, ValueView};

verus! {

/// Why a value was not rendered.
#[derive(Debug, PartialEq, Eq)]
pub enum RenderError {
    /// The description is not well formed: a section has no description of
    /// its type.
    Schema,
    /// The value does not fit the description.
    Formatting,
}

fn field_fits(shape: &Shape, nested: &Option<TypeDescriptor>, value: Option<&Value>) -> (ok: bool)
    ensures
        ok == field_conforms(*shape, nested_view(*nested), opt_view(value)),
    decreases nested, shape_depth(*shape), 0nat,
{
    match shape {
        Shape::Leaf | Shape::Inline => value.is_some(),
        Shape::Optional(inner) => match value {
            Some(_) => field_fits(&**inner, nested, value),
            None => true,
        },
        Shape::Section => match nested {
            Some(td) => match table_of(value) {
                Some(entries) => type_fits(td, entries),
                None => false,
            },
            None => false,
        },
        Shape::Mapping(entry) => match table_of(value) {
            Some(entries) => {
                let ghost views = entries_view(*entries);
                let mut i: usize = 0;
                while i < entries.len()
                    invariant
                        i <= entries.len(),
                        *shape == Shape::Mapping(*entry),
                        views == entries_view(*entries),
                        views == table_entries(opt_view(value)),
                        forall|j: int|
                            0 <= j < i ==> field_conforms(
                                **entry,
                                nested_view(*nested),
                                Some((#[trigger] views[j]).1),
                            ),
                    decreases entries.len() - i,
                {
                    if !field_fits(&**entry, nested, Some(&entries[i].1)) {
                        assert(!field_conforms(
                            **entry,
                            nested_view(*nested),
                            Some(views[i as int].1),
                        ));
                        return false;
                    }
                    i += 1;
                }
                true
            },
            None => false,
        },
    }
}

fn type_fits(td: &TypeDescriptor, entries: &Vec<(String, Value)>) -> (ok: bool)
    ensures
        ok == type_conforms(td@, entries_view(*entries)),
    decreases td, 0nat, 0nat,
{
    let ghost views = entries_view(*entries);
    proof {
        td.lemma_view();
    }
    let mut i: usize = 0;
    while i < td.fields.len()
        invariant
            i <= td.fields.len(),
            views == entries_view(*entries),
            td@.fields.len() == td.fields.len(),
            forall|j: int| 0 <= j < td.fields.len() ==> td@.fields[j] == (#[trigger] td.fields[j])@,
            forall|j: int|
                0 <= j < i ==> field_conforms(
                    (#[trigger] td@.fields[j]).shape,
                    td@.fields[j].nested,
                    crate::render::lookup(views, td@.fields[j].name),
                ),
        decreases td.fields.len() - i,
    {
        let node = &td.fields[i];
        proof {
            node.lemma_view();
            assert(td@.fields[i as int] == node@);
        }
        let value = find(entries, node.name.as_str());
        if !field_fits(&node.shape, &node.nested, value) {
            return false;
        }
        i += 1;
    }
    true
}

/// Whether `value` can be rendered as a document of the type `td` describes.
pub fn conforms(td: &TypeDescriptor, value: &Value) -> (ok: bool)
    ensures
        ok == document_conforms(td@, value@),
{
    match value {
        Value::Table(entries) => {
            proof {
                value.lemma_view_table();
            }
            type_fits(td, entries)
        },
        _ => false,
    }
}

/// Appends the text of `value` to `out`, with `prefix` as the dotted path of
/// the section that `value` stands in; the empty prefix is the document root.
pub fn render_into(out: &mut String, prefix: &str, td: &TypeDescriptor, value: &Value)
    requires
        document_conforms(td@, value@),
    ensures
        final(out)@ == old(out)@ + type_text(td@, value@->Table_0, prefix@),
{
    match value {
        Value::Table(entries) => {
            proof {
                value.lemma_view_table();
            }
            render_type(out, td, entries, prefix);
        },
        _ => {},
    }
}

/// Renders `value` as a document of the type `td` describes.
pub fn render(td: &TypeDescriptor, value: &Value) -> (text: String)
    requires
        document_conforms(td@, value@),
    ensures
        text@ == document_text(td@, value@),
{
    let mut out = String::new();
    render_into(&mut out, "", td, value);
    proof {
        reveal_strlit("");
        assert(""@ =~= Seq::<char>::empty());
    }
    out
}

/// What `try_render` returns for a description and a value: the document
/// when the description is well formed and the value fits it, `Schema` when
/// the description is not well formed, and `Formatting` when it is and the
/// value does not fit.
pub open spec fn rendered(
    td: TypeDescriptorView,
    value: ValueView,
    outcome: Result<String, RenderError>,
) -> bool {
    match outcome {
        Ok(text) => descriptor_wf(td) && document_conforms(td, value) && text@ == document_text(
            td,
            value,
        ),
        Err(RenderError::Schema) => !descriptor_wf(td),
        Err(RenderError::Formatting) => descriptor_wf(td) && !document_conforms(td, value),
    }
}

/// What rendering into a buffer under a path does to the buffer: the text of
/// the value is appended when the description is well formed and the value
/// fits it; else the buffer stays as it was, with `Schema` for a description
/// that is not well formed and `Formatting` for a value that does not fit.
pub open spec fn appended(
    td: TypeDescriptorView,
    value: ValueView,
    prefix: Seq<char>,
    before: Seq<char>,
    after: Seq<char>,
    outcome: Result<(), RenderError>,
) -> bool {
    match outcome {
        Ok(_) => descriptor_wf(td) && document_conforms(td, value) && after == before + type_text(
            td,
            value->Table_0,
            prefix,
        ),
        Err(RenderError::Schema) => !descriptor_wf(td) && after == before,
        Err(RenderError::Formatting) => descriptor_wf(td) && !document_conforms(td, value)
            && after == before,
    }
}

/// Renders `value` as a document of the type `td` describes, or says why it
/// cannot be rendered. Nothing is written unless all of it can be.
pub fn try_render(td: &TypeDescriptor, value: &Value) -> (outcome: Result<String, RenderError>)
    ensures
        rendered(td@, value@, outcome),
{
    if !td.is_well_formed() {
        Err(RenderError::Schema)
    } else if !conforms(td, value) {
        Err(RenderError::Formatting)
    } else {
        Ok(render(td, value))
    }
}

/// Appends the text of `value` to `out` under the path `prefix`, or leaves
/// `out` as it is and says why the value cannot be rendered.
pub fn try_render_into(out: &mut String, prefix: &str, td: &TypeDescriptor, value: &Value) -> (outcome:
    Result<(), RenderError>)
    ensures
        appended(td@, value@, prefix@, old(out)@, final(out)@, outcome),
{
    if !td.is_well_formed() {
        Err(RenderError::Schema)
    } else if !conforms(td, value) {
        Err(RenderError::Formatting)
    } else {
        render_into(out, prefix, td, value);
        Ok(())
    }
}

/// A type that renders itself as a commented document.
///
/// An implementation says how the type is described and which value stands
/// for `self`; the rendering follows from these two.
pub trait TomlComment: Sized + Default {
    /// The description of the implementing type.
    fn descriptor() -> TypeDescriptor;

    /// The value that stands for `self`: a table with one entry for each
    /// field that is present.
    fn to_value(&self) -> Value;

    /// The document of the default value.
    fn default_toml() -> (outcome: Result<String, RenderError>)
        ensures
            exists|this: Self, td: TypeDescriptor, value: Value|
                call_ensures(Self::descriptor, (), td) && call_ensures(
                    Self::to_value,
                    (&this,),
                    value,
                ) && rendered(td@, value@, outcome),
    {
        let this = Self::default();
        this.to_commented_toml()
    }

    /// The document of `self`.
    fn to_commented_toml(&self) -> (outcome: Result<String, RenderError>)
        ensures
            exists|td: TypeDescriptor, value: Value|
                call_ensures(Self::descriptor, (), td) && call_ensures(
                    Self::to_value,
                    (self,),
                    value,
                ) && rendered(td@, value@, outcome),
    {
        let td = Self::descriptor();
        let value = self.to_value();
        try_render(&td, &value)
    }

    /// Appends the text of `self` to `out` as the content of the section at
    /// `prefix`, or leaves `out` as it is and says why.
    fn _render(&self, out: &mut String, prefix: &str) -> (outcome: Result<(), RenderError>)
        ensures
            exists|td: TypeDescriptor, value: Value|
                call_ensures(Self::descriptor, (), td) && call_ensures(
                    Self::to_value,
                    (self,),
                    value,
                ) && appended(td@, value@, prefix@, old(out)@, final(out)@, outcome),
    {
        let td = Self::descriptor();
        let value = self.to_value();
        try_render_into(out, prefix, &td, &value)
    }
}

} // verus!
